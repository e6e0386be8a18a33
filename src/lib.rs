//! A todo list and a click counter served as hypermedia fragments: the
//! records and their pending/complete cycle, the rules of the store behind
//! them, the markup each request answers with, and the counter.

mod counter;
mod model;
mod render;
mod service;
mod store;
mod text;

pub use counter::{increments_from_zero, lemma_increments_add_up, Counter};
pub use model::{
    lemma_flag_round_trip, lemma_toggle_involution, views, Completion, ItemView, TodoError,
    TodoItem,
};
pub use render::{
    checkbox_close, checkbox_open, counter_markup, counter_page_markup, decimal, digit,
    escape_char, html_escaped, html_unescaped, item_markup, items_markup, lemma_escape_round_trip, lemma_escaped_is_inert, page_head,
    page_markup, render_counter, render_counter_page, render_empty, render_item, render_page,
};
pub use service::{
    add_todo, after_add, lemma_add_then_list, lemma_remove_then_list, lemma_toggle_twice,
    list_todos, remove_todo, toggle_todo, update_outcome,
};
pub use store::{
    delete_rows, has_id, index_of, lemma_ids_unique, rows_ordered, toggle_row, toggle_rows,
    StoreView, TodoStore,
};
pub use text::{blank, check_text, white_space};
