use browser_host::commands::{create_request, navigate_to, switch_plan};
use browser_host::label::{u32_to_dec, webview_label};

#[test]
fn navigate_to_normalizes_bare_host() {
    assert_eq!(
        navigate_to("example.com".to_string()),
        Ok("https://example.com/".to_string())
    );
}

#[test]
fn navigate_to_sends_free_text_to_search() {
    assert_eq!(
        navigate_to("hello world".to_string()),
        Ok("https://www.google.com/search?q=hello%20world".to_string())
    );
}

#[test]
fn labels_carry_the_tab_id_in_decimal() {
    assert_eq!(webview_label(0), "browser-0");
    assert_eq!(webview_label(7), "browser-7");
    assert_eq!(webview_label(10), "browser-10");
    assert_eq!(webview_label(104), "browser-104");
    assert_eq!(webview_label(u32::MAX), "browser-4294967295");
}

#[test]
fn decimal_rendering_keeps_every_digit() {
    assert_eq!(u32_to_dec(0), "0");
    assert_eq!(u32_to_dec(12345), "12345");
    assert_eq!(u32_to_dec(1000000), "1000000");
}

#[test]
fn create_request_carries_label_and_normalized_url() {
    let req = create_request("example.com", 5).unwrap();
    assert_eq!(req.label, "browser-5");
    assert_eq!(req.url, "https://example.com/");
}

#[test]
fn create_request_accepts_search_fallback() {
    let req = create_request("hello world", 1).unwrap();
    assert_eq!(req.label, "browser-1");
    assert_eq!(req.url, "https://www.google.com/search?q=hello%20world");
}

#[test]
fn switch_plan_shows_only_the_active_tab() {
    let plan = switch_plan(2, &vec![1, 2, 3]);
    assert_eq!(plan.len(), 3);
    assert_eq!(plan[0].label, "browser-1");
    assert!(!plan[0].show);
    assert_eq!(plan[1].label, "browser-2");
    assert!(plan[1].show);
    assert_eq!(plan[2].label, "browser-3");
    assert!(!plan[2].show);
}

#[test]
fn switch_plan_with_no_tabs_is_empty() {
    assert!(switch_plan(1, &vec![]).is_empty());
}

#[test]
fn switch_plan_hides_everything_when_active_tab_is_absent() {
    let plan = switch_plan(9, &vec![4, 5]);
    assert_eq!(plan.len(), 2);
    assert!(!plan[0].show);
    assert!(!plan[1].show);
}
