use blitz_nova::{
    event_dispatch_js, ArgError, BlitzHostHandler, DocumentExt, HostHandler, NodeExt, TimeExt,
};

struct OneNode;

impl HostHandler for OneNode {
    fn query_selector_all(&self, selector: &str) -> Vec<usize> {
        if selector == "#main" {
            vec![3, (1usize << 32) + 7]
        } else {
            vec![]
        }
    }

    fn get_attribute(&self, node_id: usize, name: &str) -> Option<String> {
        if node_id == 3 && name == "id" {
            Some("main".to_string())
        } else {
            None
        }
    }

    fn inner_html_set(&self, _node_id: usize, _html: &str) {}
}

#[test]
fn dispatch_script_names_node_and_event() {
    assert_eq!(
        event_dispatch_js(42, "click"),
        "new Node(42).dispatchEvent(new Event('click'))"
    );
    assert_eq!(
        event_dispatch_js(0, "load"),
        "new Node(0).dispatchEvent(new Event('load'))"
    );
    assert_eq!(
        event_dispatch_js(1907, ""),
        "new Node(1907).dispatchEvent(new Event(''))"
    );
}

#[test]
fn get_attribute_checks_in_order() {
    let h = OneNode;
    assert_eq!(
        NodeExt::internal_get_attribute(&h, None, 1, None),
        Err(ArgError::ExpectedInt)
    );
    assert_eq!(
        NodeExt::internal_get_attribute(&h, Some(3), 1, Some("id")),
        Err(ArgError::ExpectedArgs(2))
    );
    assert_eq!(
        NodeExt::internal_get_attribute(&h, Some(3), 2, None),
        Err(ArgError::ExpectedString)
    );
    assert_eq!(
        NodeExt::internal_get_attribute(&h, Some(3), 2, Some("class")),
        Err(ArgError::NoAttribute)
    );
    assert_eq!(
        NodeExt::internal_get_attribute(&h, Some(3), 2, Some("id")),
        Ok("main".to_string())
    );
}

#[test]
fn inner_html_needs_a_string() {
    let h = BlitzHostHandler {};
    assert_eq!(NodeExt::internal_inner_html_set(&h, 1, Some("<p>x</p>")), Ok(()));
    assert_eq!(
        NodeExt::internal_inner_html_set(&h, 1, None),
        Err(ArgError::ExpectedString)
    );
}

#[test]
fn query_selector_all_checks_and_converts() {
    let h = OneNode;
    assert_eq!(
        DocumentExt::internal_query_selector_all(&h, 2, Some("#main")),
        Err(ArgError::ExpectedArgs(1))
    );
    assert_eq!(
        DocumentExt::internal_query_selector_all(&h, 1, None),
        Err(ArgError::ExpectedString)
    );
    assert_eq!(
        DocumentExt::internal_query_selector_all(&h, 1, Some("#main")),
        Ok(vec![3, 7])
    );
    assert_eq!(
        DocumentExt::internal_query_selector_all(&h, 1, Some("p")),
        Ok(vec![])
    );
}

#[test]
fn empty_host_finds_nothing() {
    let h = BlitzHostHandler {};
    assert!(h.query_selector_all("div").is_empty());
    assert_eq!(h.get_attribute(0, "id"), None);
    assert_eq!(
        NodeExt::internal_get_attribute(&h, Some(0), 2, Some("id")),
        Err(ArgError::NoAttribute)
    );
}

#[test]
fn set_timeout_checks_in_order() {
    assert_eq!(TimeExt::set_timeout_args(1, true, Some(5)), Err(ArgError::ExpectedArgs(2)));
    assert_eq!(TimeExt::set_timeout_args(0, false, None), Err(ArgError::ExpectedArgs(2)));
    assert_eq!(TimeExt::set_timeout_args(2, false, Some(5)), Err(ArgError::ExpectedFunction));
    assert_eq!(TimeExt::set_timeout_args(2, true, None), Err(ArgError::ExpectedInt));
    assert_eq!(TimeExt::set_timeout_args(2, true, Some(1000)), Ok(1000));
    assert_eq!(TimeExt::set_timeout_args(3, true, Some(0)), Ok(0));
}
