use vstd::prelude::*;
use vstd::string::StringExecFns;
use crate::model::{views, Completion, ItemView, TodoItem};

verus! {

/// How one character is written into markup: the four characters that HTML reads as
/// syntax become entities, every other character stays as it is.
pub open spec fn escape_char(c: char) -> Seq<char> {
    if c == '&' {
        seq!['&', 'a', 'm', 'p', ';']
    } else if c == '<' {
        seq!['&', 'l', 't', ';']
    } else if c == '>' {
        seq!['&', 'g', 't', ';']
    } else if c == '"' {
        seq!['&', 'q', 'u', 'o', 't', ';']
    } else {
        seq![c]
    }
}

/// Text made safe to stand in markup, character by character.
pub open spec fn html_escaped(s: Seq<char>) -> Seq<char>
    decreases s.len(),
{
    if s.len() == 0 {
        Seq::empty()
    } else {
        escape_char(s[0]) + html_escaped(s.drop_first())
    }
}

/// Escaped text read back: each of the four entities becomes its character again,
/// every other character stays as it is.
pub open spec fn html_unescaped(s: Seq<char>) -> Seq<char>
    decreases s.len(),
{
    if s.len() == 0 {
        Seq::empty()
    } else if s.len() >= 5 && s.subrange(0, 5) == escape_char('&') {
        seq!['&'] + html_unescaped(s.subrange(5, s.len() as int))
    } else if s.len() >= 4 && s.subrange(0, 4) == escape_char('<') {
        seq!['<'] + html_unescaped(s.subrange(4, s.len() as int))
    } else if s.len() >= 4 && s.subrange(0, 4) == escape_char('>') {
        seq!['>'] + html_unescaped(s.subrange(4, s.len() as int))
    } else if s.len() >= 6 && s.subrange(0, 6) == escape_char('"') {
        seq!['"'] + html_unescaped(s.subrange(6, s.len() as int))
    } else {
        seq![s[0]] + html_unescaped(s.drop_first())
    }
}

/// The decimal digit for `d`, which is below ten.
pub open spec fn digit(d: nat) -> char {
    if d == 0 { '0' }
    else if d == 1 { '1' }
    else if d == 2 { '2' }
    else if d == 3 { '3' }
    else if d == 4 { '4' }
    else if d == 5 { '5' }
    else if d == 6 { '6' }
    else if d == 7 { '7' }
    else if d == 8 { '8' }
    else { '9' }
}

/// `n` written in decimal, without leading zeros.
pub open spec fn decimal(n: nat) -> Seq<char>
    decreases n,
{
    if n < 10 {
        seq![digit(n)]
    } else {
        decimal(n / 10) + seq![digit(n % 10)]
    }
}

/// Relies on maud's `Render` for `str`, which appends the text with `&`, `<`, `>` and `"`
/// written as entities and every other character as it is.
#[verifier::external_body]
fn push_escaped(out: &mut String, s: &str)
    ensures
        final(out)@ == old(out)@ + html_escaped(s@),
{
    maud::Render::render_to(s, out)
}

/// Relies on maud's `Render` for `u64`, which appends the number in decimal.
#[verifier::external_body]
fn push_number(out: &mut String, n: u64)
    ensures
        final(out)@ == old(out)@ + decimal(n as nat),
{
    maud::Render::render_to(&n, out)
}

/// The checkbox up to its update target, which shows the item's state.
pub open spec fn checkbox_open(state: Completion) -> Seq<char> {
    match state {
        Completion::Pending => "\"><input type=\"checkbox\" value=\"0\" hx-swap=\"none\" hx-patch=\"/todo/"@,
        Completion::Complete => "\"><input type=\"checkbox\" value=\"1\" hx-swap=\"none\" hx-patch=\"/todo/"@,
    }
}

/// The end of the checkbox, ticked when the item is complete, and the label's opening tag.
pub open spec fn checkbox_close(state: Completion) -> Seq<char> {
    match state {
        Completion::Pending => "\"></input><span>"@,
        Completion::Complete => "\" checked></input><span>"@,
    }
}

/// One list entry: a checkbox that reflects the state and patches `/todo/<id>`, the
/// escaped label, and a button that deletes `/todo/<id>`.
pub open spec fn item_markup(v: ItemView) -> Seq<char> {
    "<li id=\""@ + decimal(v.id as nat) + checkbox_open(v.state) + decimal(v.id as nat)
        + checkbox_close(v.state) + html_escaped(v.text)
        + "</span><button hx-delete=\"/todo/"@ + decimal(v.id as nat)
        + "\" hx-target=\"closest li\" hx-swap=\"outerHTML\">x</button></li>"@
}

/// The entries of all items, one after another.
pub open spec fn items_markup(items: Seq<ItemView>) -> Seq<char>
    decreases items.len(),
{
    if items.len() == 0 {
        Seq::empty()
    } else {
        items_markup(items.drop_last()) + item_markup(items.last())
    }
}

/// The page up to the list: scripts, the form that adds a todo, and the heading.
pub open spec fn page_head() -> Seq<char> {
    "<!DOCTYPE html><head><script src=\"https://unpkg.com/htmx.org@1.9.6\"></script><script src=\"https://unpkg.com/hyperscript.org@0.9.12\"></script><link rel=\"shortcut icon\" href=\"#\"></head><body><div><div><form hx-post=\"/add_todo\" hx-target=\"#todos\" hx-swap=\"beforeend\" _=\"on htmx:afterRequest reset() me\"><input placeholder=\"What you doin'?\" name=\"todo\"></input><br><button>Add Todo</button></form></div><h1>Todos: </h1><ul id=\"todos\">"@
}

/// The whole page listing `items`.
pub open spec fn page_markup(items: Seq<ItemView>) -> Seq<char> {
    page_head() + items_markup(items) + "</ul></div></body>"@
}

fn push_item(out: &mut String, item: &TodoItem)
    ensures
        final(out)@ == old(out)@ + item_markup(item@),
{
    let ghost start = out@;
    out.append("<li id=\"");
    push_number(out, item.id);
    match item.state {
        Completion::Pending => out.append(
            "\"><input type=\"checkbox\" value=\"0\" hx-swap=\"none\" hx-patch=\"/todo/",
        ),
        Completion::Complete => out.append(
            "\"><input type=\"checkbox\" value=\"1\" hx-swap=\"none\" hx-patch=\"/todo/",
        ),
    }
    push_number(out, item.id);
    match item.state {
        Completion::Pending => out.append("\"></input><span>"),
        Completion::Complete => out.append("\" checked></input><span>"),
    }
    push_escaped(out, item.text.as_str());
    out.append("</span><button hx-delete=\"/todo/");
    push_number(out, item.id);
    out.append("\" hx-target=\"closest li\" hx-swap=\"outerHTML\">x</button></li>");
    assert(out@ =~= start + item_markup(item@));
}

/// The list entry for one todo, as the answer to an add.
pub fn render_item(item: &TodoItem) -> (r: String)
    ensures
        r@ == item_markup(item@),
{
    let mut out = String::new();
    push_item(&mut out, item);
    assert(out@ =~= item_markup(item@));
    out
}

/// The whole page: the form that adds a todo and the list of `items` in order.
pub fn render_page(items: &Vec<TodoItem>) -> (r: String)
    ensures
        r@ == page_markup(views(items@)),
{
    let mut out = String::new();
    out.append("<!DOCTYPE html><head><script src=\"https://unpkg.com/htmx.org@1.9.6\"></script><script src=\"https://unpkg.com/hyperscript.org@0.9.12\"></script><link rel=\"shortcut icon\" href=\"#\"></head><body><div><div><form hx-post=\"/add_todo\" hx-target=\"#todos\" hx-swap=\"beforeend\" _=\"on htmx:afterRequest reset() me\"><input placeholder=\"What you doin'?\" name=\"todo\"></input><br><button>Add Todo</button></form></div><h1>Todos: </h1><ul id=\"todos\">");
    let mut i: usize = 0;
    while i < items.len()
        invariant
            i <= items@.len(),
            out@ == page_head() + items_markup(views(items@).subrange(0, i as int)),
        decreases items@.len() - i,
    {
        push_item(&mut out, &items[i]);
        proof {
            let vs = views(items@);
            assert(vs.subrange(0, i + 1).drop_last() =~= vs.subrange(0, i as int));
            assert(out@ =~= page_head() + items_markup(vs.subrange(0, i + 1)));
        }
        i = i + 1;
    }
    assert(views(items@).subrange(0, i as int) =~= views(items@));
    out.append("</ul></div></body>");
    assert(out@ =~= page_markup(views(items@)));
    out
}

/// The answer to a toggle: nothing, since the page already shows the new state.
pub fn render_empty() -> (r: String)
    ensures
        r@ == Seq::<char>::empty(),
{
    String::new()
}

/// The counter's fragment showing `value`.
pub open spec fn counter_markup(value: u64) -> Seq<char> {
    "<span id=\"counter\">"@ + decimal(value as nat) + "</span>"@
}

/// The counter's fragment, as the answer to an increment.
pub fn render_counter(value: u64) -> (r: String)
    ensures
        r@ == counter_markup(value),
{
    let mut out = String::new();
    out.append("<span id=\"counter\">");
    push_number(&mut out, value);
    out.append("</span>");
    assert(out@ =~= counter_markup(value));
    out
}

/// The counter's page: a button that posts an increment, and the fragment showing `value`.
pub open spec fn counter_page_markup(value: u64) -> Seq<char> {
    "<!DOCTYPE html><head><script src=\"https://unpkg.com/htmx.org@1.9.6\"></script></head><body><button hx-post=\"/counter\" hx-target=\"#counter\" hx-swap=\"outerHTML\">Click</button>"@
        + counter_markup(value) + "</body>"@
}

/// The counter's whole page, at `value`.
pub fn render_counter_page(value: u64) -> (r: String)
    ensures
        r@ == counter_page_markup(value),
{
    let mut out = String::new();
    out.append("<!DOCTYPE html><head><script src=\"https://unpkg.com/htmx.org@1.9.6\"></script></head><body><button hx-post=\"/counter\" hx-target=\"#counter\" hx-swap=\"outerHTML\">Click</button>");
    let fragment = render_counter(value);
    out.append(fragment.as_str());
    out.append("</body>");
    assert(out@ =~= counter_page_markup(value));
    out
}

/// Escaped text holds none of `<`, `>` or `"`, so a label can open no tag and close no
/// attribute: whatever it says, it stays text.
pub proof fn lemma_escaped_is_inert(s: Seq<char>)
    ensures
        forall|i: int| 0 <= i < html_escaped(s).len() ==> {
            let c = #[trigger] html_escaped(s)[i];
            c != '<' && c != '>' && c != '"'
        },
    decreases s.len(),
{
    if s.len() > 0 {
        lemma_escaped_is_inert(s.drop_first());
        let e = escape_char(s[0]);
        let rest = html_escaped(s.drop_first());
        assert forall|i: int| 0 <= i < html_escaped(s).len() implies {
            let c = #[trigger] html_escaped(s)[i];
            c != '<' && c != '>' && c != '"'
        } by {
            if i < e.len() {
                assert(html_escaped(s)[i] == e[i]);
            } else {
                assert(html_escaped(s)[i] == rest[i - e.len()]);
            }
        }
    }
}

/// Reading escaped text back gives the text itself: the markup carries the label exactly.
pub proof fn lemma_escape_round_trip(s: Seq<char>)
    ensures
        html_unescaped(html_escaped(s)) == s,
    decreases s.len(),
{
    if s.len() > 0 {
        let c = s[0];
        let e = escape_char(c);
        let rest = html_escaped(s.drop_first());
        let t = html_escaped(s);
        assert(t == e + rest);
        lemma_escape_round_trip(s.drop_first());
        assert(t.subrange(e.len() as int, t.len() as int) =~= rest);
        assert(t.subrange(0, e.len() as int) =~= e);
        if c != '&' && c != '<' && c != '>' && c != '"' {
            assert(t[0] == c);
            assert(t.drop_first() =~= rest);
        }
        assert(html_unescaped(t) =~= s);
    }
}

} // verus!
