//! The decisions behind the host's command surface.
//!
//! Each command the front end invokes resolves, on this side, to plain
//! values: the normalized URL to navigate to, the label of the webview a
//! command addresses, and, for a tab switch, which webviews to show or
//! hide.  The toolkit calls that carry these decisions out live outside the
//! library.

use vstd::prelude::*;
use crate::label::{label_of, webview_label};
use crate::normalize::{
    has_prefix, normalize_url, normalized_url, parse_url, scheme_ok, url_err_text, url_parse_ok,
};
use crate::text::trim_spec;

verus! {

/// Normalizes a user-entered address and hands it back to the front end.
pub fn navigate_to(url: String) -> (r: Result<String, String>)
    ensures
        r matches Ok(s) && s@ == normalized_url(url@),
        !scheme_ok(trim_spec(url@)) ==> has_prefix(r->Ok_0@, "https://"@),
{
    Ok(normalize_url(url.as_str()))
}

/// Everything the toolkit needs to create a tab's webview: the label to
/// register it under and the normalized URL to load in it.
pub struct CreateRequest {
    pub label: String,
    pub url: String,
}

/// Decides a webview-creation command: normalizes the address, checks that
/// the result parses as a URL, and derives the webview's label.  The check
/// fails only where the normalized form is itself unparseable, and then
/// surfaces the parse error as a string.
pub fn create_request(url: &str, tab_id: u32) -> (r: Result<CreateRequest, String>)
    ensures
        r is Ok <==> url_parse_ok(normalized_url(url@)),
        r matches Ok(req) ==> req.label@ == label_of(tab_id) && req.url@ == normalized_url(url@),
        r matches Err(m) ==> m@ == "URL parse error: "@ + url_err_text(normalized_url(url@)),
{
    let normalized = normalize_url(url);
    match parse_url(normalized.as_str()) {
        Ok(_) => Ok(
            CreateRequest { label: webview_label(tab_id), url: normalized },
        ),
        Err(e) => Err(String::from_str("URL parse error: ").concat(e.as_str())),
    }
}

/// One step of a tab switch: show or hide the webview under `label`.
pub struct TabCommand {
    pub label: String,
    pub show: bool,
}

/// Decides a tab switch: one command per given tab, in the given order,
/// showing the active tab's webview and hiding every other one.
pub fn switch_plan(active_tab_id: u32, all_tab_ids: &Vec<u32>) -> (r: Vec<TabCommand>)
    ensures
        r@.len() == all_tab_ids@.len(),
        forall|i: int|
            0 <= i < r@.len() ==> (#[trigger] r@[i]).label@ == label_of(all_tab_ids@[i]) && r@[i].show
                == (all_tab_ids@[i] == active_tab_id),
{
    let mut out: Vec<TabCommand> = Vec::new();
    let mut i: usize = 0;
    while i < all_tab_ids.len()
        invariant
            i <= all_tab_ids@.len(),
            out@.len() == i,
            forall|k: int|
                0 <= k < i ==> (#[trigger] out@[k]).label@ == label_of(all_tab_ids@[k])
                    && out@[k].show == (all_tab_ids@[k] == active_tab_id),
        decreases all_tab_ids@.len() - i,
    {
        let id = all_tab_ids[i];
        out.push(TabCommand { label: webview_label(id), show: id == active_tab_id });
        i += 1;
    }
    out
}

} // verus!
