use htmx_todo::{
    render_counter, render_counter_page, render_empty, render_item, render_page, Completion,
    Counter, TodoItem,
};

fn item(id: u64, text: &str, state: Completion) -> TodoItem {
    TodoItem { id, text: text.to_string(), state }
}

#[test]
fn pending_item_markup() {
    assert_eq!(
        render_item(&item(1, "Buy milk", Completion::Pending)),
        "<li id=\"1\"><input type=\"checkbox\" value=\"0\" hx-swap=\"none\" hx-patch=\"/todo/1\"></input><span>Buy milk</span><button hx-delete=\"/todo/1\" hx-target=\"closest li\" hx-swap=\"outerHTML\">x</button></li>"
    );
}

#[test]
fn complete_item_markup() {
    assert_eq!(
        render_item(&item(42, "done", Completion::Complete)),
        "<li id=\"42\"><input type=\"checkbox\" value=\"1\" hx-swap=\"none\" hx-patch=\"/todo/42\" checked></input><span>done</span><button hx-delete=\"/todo/42\" hx-target=\"closest li\" hx-swap=\"outerHTML\">x</button></li>"
    );
}

#[test]
fn script_text_is_escaped() {
    let out = render_item(&item(3, "<script>alert(\"x\") & more</script>", Completion::Pending));
    assert!(!out.contains("<script"));
    assert!(out.contains(
        "<span>&lt;script&gt;alert(&quot;x&quot;) &amp; more&lt;/script&gt;</span>"
    ));
}

#[test]
fn script_label_adds_no_tag_to_page() {
    let items = vec![
        item(1, "<script>alert(1)</script>", Completion::Complete),
        item(2, "\"><script>", Completion::Pending),
    ];
    let page = render_page(&items);
    assert_eq!(page.matches("<script").count(), 2);
    assert!(page.contains("<span>&lt;script&gt;alert(1)&lt;/script&gt;</span>"));
    assert!(page.contains("<span>&quot;&gt;&lt;script&gt;</span>"));
}

#[test]
fn complete_item_in_page() {
    let page = render_page(&vec![item(1, "Buy milk", Completion::Complete)]);
    assert!(page.contains("<ul id=\"todos\"><li id=\"1\"><input type=\"checkbox\" value=\"1\" hx-swap=\"none\" hx-patch=\"/todo/1\" checked></input><span>Buy milk</span><button hx-delete=\"/todo/1\" hx-target=\"closest li\" hx-swap=\"outerHTML\">x</button></li></ul>"));
    assert!(page.contains("<input placeholder=\"What you doin'?\" name=\"todo\"></input><br>"));
}

#[test]
fn non_ascii_text_kept() {
    let out = render_item(&item(7, "café ☕", Completion::Pending));
    assert!(out.contains("<span>café ☕</span>"));
}

#[test]
fn large_id_in_decimal() {
    let out = render_item(&item(u64::MAX, "x", Completion::Pending));
    assert!(out.starts_with("<li id=\"18446744073709551615\">"));
    assert!(out.contains("hx-delete=\"/todo/18446744073709551615\""));
}

#[test]
fn page_lists_items_in_order() {
    let items = vec![
        item(1, "a", Completion::Pending),
        item(2, "b", Completion::Complete),
    ];
    let page = render_page(&items);
    assert!(page.starts_with("<!DOCTYPE html><head>"));
    assert!(page.ends_with("</ul></div></body>"));
    let first = render_item(&items[0]);
    let second = render_item(&items[1]);
    let list = format!("<ul id=\"todos\">{}{}</ul>", first, second);
    assert!(page.contains(&list));
}

#[test]
fn empty_page_has_empty_list() {
    let page = render_page(&Vec::new());
    assert!(page.contains("<ul id=\"todos\"></ul>"));
    assert!(page.contains("hx-post=\"/add_todo\""));
}

#[test]
fn empty_fragment() {
    assert_eq!(render_empty(), "");
}

#[test]
fn counter_fragment_and_page() {
    assert_eq!(render_counter(0), "<span id=\"counter\">0</span>");
    assert_eq!(render_counter(1234), "<span id=\"counter\">1234</span>");
    let page = render_counter_page(5);
    assert!(page.contains("hx-post=\"/counter\""));
    assert!(page.contains("<span id=\"counter\">5</span>"));
}

#[test]
fn counter_counts_every_increment() {
    let mut counter = Counter::new();
    assert_eq!(counter.current_value(), 0);
    for n in 1..=100u64 {
        assert_eq!(counter.increment(), n);
    }
    assert_eq!(counter.current_value(), 100);
}

#[test]
fn counter_through_shared_handles_counts_every_increment() {
    let counter = std::sync::Arc::new(std::sync::Mutex::new(Counter::new()));
    let handles: Vec<_> = (0..8).map(|_| std::sync::Arc::clone(&counter)).collect();
    for _ in 0..125 {
        for h in &handles {
            h.lock().unwrap().increment();
        }
    }
    assert_eq!(counter.lock().unwrap().current_value(), 1000);
}
