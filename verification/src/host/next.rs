use vstd::prelude::*;
use vstd::string::*;
use crate::text::{decimal_string, nat_decimal};

verus! {

/// What a button press on the list of unfinished battles leads to.
#[derive(Debug, Clone, Copy, PartialEq, Eq, Structural)]
pub enum PageAction {
    /// Show the page with this index.
    Show(usize),
    /// Offer the list of ids as a file.
    Download,
    /// Switch to the compact list of ids.
    Compact,
    /// The press belongs to another button: nothing changes.
    Ignore,
}

/// The id of a navigation button of the command with id `ctx_id`: the id, then `suffix`.
pub open spec fn button_id(ctx_id: u64, suffix: Seq<char>) -> Seq<char> {
    nat_decimal(ctx_id as nat) + suffix
}

/// The page shown after `next` on page `current` of `pages` (wrapping to the first).
pub open spec fn page_after_next(current: int, pages: int) -> int {
    if current + 1 >= pages {
        0
    } else {
        current + 1
    }
}

/// The page shown after `prev` on page `current` of `pages` (wrapping to the last).
pub open spec fn page_after_prev(current: int, pages: int) -> int {
    if current == 0 {
        pages - 1
    } else {
        current - 1
    }
}

/// What pressing the button `custom_id` does on page `current` of `pages`, where the
/// buttons of the command `ctx_id` are `{ctx_id}next`, `{ctx_id}prev`,
/// `{ctx_id}download` and `{ctx_id}compact`, tried in that order.
pub open spec fn page_action(current: int, pages: int, custom_id: Seq<char>, ctx_id: u64) -> PageAction {
    if custom_id == button_id(ctx_id, "next"@) {
        PageAction::Show(page_after_next(current, pages) as usize)
    } else if custom_id == button_id(ctx_id, "prev"@) {
        PageAction::Show(page_after_prev(current, pages) as usize)
    } else if custom_id == button_id(ctx_id, "download"@) {
        PageAction::Download
    } else if custom_id == button_id(ctx_id, "compact"@) {
        PageAction::Compact
    } else {
        PageAction::Ignore
    }
}

fn id_of(ctx_id: u64, suffix: &str) -> (r: String)
    ensures
        r@ == button_id(ctx_id, suffix@),
{
    let mut s = decimal_string(ctx_id);
    s.append(suffix);
    s
}

/// Decides what the button press `custom_id` does on page `current` of `pages`.
pub fn paginate_step(current: usize, pages: usize, custom_id: &str, ctx_id: u64) -> (r: PageAction)
    requires
        current < pages,
    ensures
        r == page_action(current as int, pages as int, custom_id@, ctx_id),
        r matches PageAction::Show(p) ==> p < pages,
{
    let id = String::from_str(custom_id);
    if id == id_of(ctx_id, "next") {
        let mut p = current + 1;
        if p >= pages {
            p = 0;
        }
        PageAction::Show(p)
    } else if id == id_of(ctx_id, "prev") {
        let p = match current.checked_sub(1) {
            Some(p) => p,
            None => pages - 1,
        };
        PageAction::Show(p)
    } else if id == id_of(ctx_id, "download") {
        PageAction::Download
    } else if id == id_of(ctx_id, "compact") {
        PageAction::Compact
    } else {
        PageAction::Ignore
    }
}

/// A law of paging: the page index stays within the pages, and `prev` undoes `next` and
/// `next` undoes `prev`.
pub proof fn lemma_paging_undo(current: int, pages: int)
    requires
        0 <= current < pages,
    ensures
        0 <= page_after_next(current, pages) < pages,
        0 <= page_after_prev(current, pages) < pages,
        page_after_prev(page_after_next(current, pages), pages) == current,
        page_after_next(page_after_prev(current, pages), pages) == current,
{
}

} // verus!

verus! {

/// A navigation button of the list of unfinished battles.
pub struct PageButton {
    pub id: String,
    pub label: String,
    pub disabled: bool,
}

/// The buttons of the list for the command `ctx_id`: back, forward, Download (switched
/// off) and Compact. The Compact button carries the download id, so pressing it offers
/// the list of ids as a file.
pub fn paginate_buttons(ctx_id: u64) -> (r: Vec<PageButton>)
    ensures
        r@.len() == 4,
        r@[0].id@ == button_id(ctx_id, "prev"@) && r@[0].label@ == "◀"@ && !r@[0].disabled,
        r@[1].id@ == button_id(ctx_id, "next"@) && r@[1].label@ == "▶"@ && !r@[1].disabled,
        r@[2].id@ == button_id(ctx_id, "download"@) && r@[2].label@ == "Download"@ && r@[2].disabled,
        r@[3].id@ == button_id(ctx_id, "download"@) && r@[3].label@ == "Compact"@ && !r@[3].disabled,
{
    let mut r: Vec<PageButton> = Vec::new();
    r.push(PageButton { id: id_of(ctx_id, "prev"), label: String::from_str("◀"), disabled: false });
    r.push(PageButton { id: id_of(ctx_id, "next"), label: String::from_str("▶"), disabled: false });
    r.push(
        PageButton { id: id_of(ctx_id, "download"), label: String::from_str("Download"), disabled: true },
    );
    r.push(
        PageButton { id: id_of(ctx_id, "download"), label: String::from_str("Compact"), disabled: false },
    );
    r
}

/// A law of the list: each button's id leads to the action its label names.
pub proof fn lemma_buttons_lead_to_their_actions(current: int, pages: int, ctx_id: u64)
    ensures
        page_action(current, pages, button_id(ctx_id, "download"@), ctx_id) == PageAction::Download,
        page_action(current, pages, button_id(ctx_id, "compact"@), ctx_id) == PageAction::Compact,
        page_action(current, pages, button_id(ctx_id, "next"@), ctx_id) == PageAction::Show(
            page_after_next(current, pages) as usize,
        ),
{
    reveal_strlit("next");
    reveal_strlit("prev");
    reveal_strlit("download");
    reveal_strlit("compact");
    let d = nat_decimal(ctx_id as nat);
    assert(button_id(ctx_id, "download"@).len() != button_id(ctx_id, "next"@).len());
    assert(button_id(ctx_id, "download"@).len() != button_id(ctx_id, "prev"@).len());
    assert(button_id(ctx_id, "compact"@).len() != button_id(ctx_id, "next"@).len());
    assert(button_id(ctx_id, "compact"@).len() != button_id(ctx_id, "prev"@).len());
    assert(button_id(ctx_id, "compact"@)[d.len() as int] != button_id(ctx_id, "download"@)[d.len() as int]);
}

} // verus!
