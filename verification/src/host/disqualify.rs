use crate::numparse::{chars_of, lemma_parse_decimal_round_trip, parse_field, parse_unsigned};
use crate::text::nat_decimal;
use crate::text::same_text;
use vstd::prelude::*;
use vstd::string::*;

verus! {

/// The Discord id typed into the disqualification form, read as `u64`; 0 where it is
/// not a number (no player has that id).
pub open spec fn form_user_id(text: Seq<char>) -> nat {
    match parse_unsigned(text, u64::MAX as nat) {
        Some(v) => v,
        None => 0,
    }
}

/// Reads the Discord id of the disqualification form (see `form_user_id`).
pub fn parse_user_id(text: &str) -> (r: u64)
    ensures
        r == form_user_id(text@),
{
    let chars = chars_of(text);
    assert(chars@.subrange(0, chars@.len() as int) =~= text@);
    match parse_field(&chars, 0, chars.len(), u64::MAX) {
        Some(v) => v,
        None => 0,
    }
}

/// What the disqualification menu does with a pressed button.
#[derive(Debug, Clone, Copy, PartialEq, Eq, Structural)]
pub enum DisqualifyAction {
    /// Open the form for the id and the reason.
    OpenForm,
    /// Disqualify the player found.
    Confirm,
    /// Leave the menu.
    Cancel,
    /// Not a button of this menu: wait for the next one.
    Ignore,
}

/// The action of the disqualification menu for the button `custom_id`.
pub open spec fn disqualify_action_of(custom_id: Seq<char>) -> DisqualifyAction {
    if custom_id == "open_modal"@ {
        DisqualifyAction::OpenForm
    } else if custom_id == "confirm"@ {
        DisqualifyAction::Confirm
    } else if custom_id == "cancel"@ {
        DisqualifyAction::Cancel
    } else {
        DisqualifyAction::Ignore
    }
}

/// The action of the disqualification menu for a pressed button.
pub fn disqualify_action(custom_id: &str) -> (r: DisqualifyAction)
    ensures
        r == disqualify_action_of(custom_id@),
{
    if same_text(custom_id, "open_modal") {
        DisqualifyAction::OpenForm
    } else if same_text(custom_id, "confirm") {
        DisqualifyAction::Confirm
    } else if same_text(custom_id, "cancel") {
        DisqualifyAction::Cancel
    } else {
        DisqualifyAction::Ignore
    }
}

/// A law of the form: a Discord id written in decimal is read back as the same id.
pub proof fn lemma_user_id_round_trip(id: u64)
    ensures
        form_user_id(nat_decimal(id as nat)) == id,
{
    lemma_parse_decimal_round_trip(id as nat, u64::MAX as nat);
}

} // verus!

verus! {

/// What the region-first disqualification menu has gathered: the region chosen and the
/// Discord id typed in.
pub struct DisqState {
    pub region: Option<crate::region::Region>,
    pub user_id: Option<String>,
}

/// What the region-first disqualification menu does with a pressed button.
#[derive(Debug, Clone, Copy, PartialEq, Eq, Structural)]
pub enum DisqStep {
    /// A region was chosen: ask for the id.
    AskId,
    /// Open the form for the id, then look the player up.
    OpenForm,
    /// Disqualify the player looked up.
    Confirm,
    /// Leave the menu.
    Cancel,
    /// Not a button of this menu.
    Ignore,
}

/// One press in the region-first disqualification menu: a region button records the
/// region and asks for the id; the other buttons leave what was gathered as it is.
pub fn disqualify_step(state: DisqState, custom_id: &str) -> (r: (DisqState, DisqStep))
    ensures
        crate::region::region_of_key(custom_id@) matches Some(g) ==> r.0.region == Some(g)
            && r.0.user_id == state.user_id && r.1 == DisqStep::AskId,
        crate::region::region_of_key(custom_id@) is None ==> r.0 == state && r.1 == if custom_id@
            == "open_modal"@ {
            DisqStep::OpenForm
        } else if custom_id@ == "confirm"@ {
            DisqStep::Confirm
        } else if custom_id@ == "cancel"@ {
            DisqStep::Cancel
        } else {
            DisqStep::Ignore
        },
{
    match crate::region::Region::find_key(custom_id) {
        Some(g) => (DisqState { region: Some(g), user_id: state.user_id }, DisqStep::AskId),
        None => {
            let step = if same_text(custom_id, "open_modal") {
                DisqStep::OpenForm
            } else if same_text(custom_id, "confirm") {
                DisqStep::Confirm
            } else if same_text(custom_id, "cancel") {
                DisqStep::Cancel
            } else {
                DisqStep::Ignore
            };
            (state, step)
        },
    }
}

/// The confirmation of a disqualification.
pub fn disqualified_text(name: &str, tag: &str, user_id: &str, round: &str) -> (r: String)
    ensures
        r@ == "Successfully disqualified player: "@ + name@ + "("@ + tag@ + ") with respective Discord <@"@
            + user_id@ + "> at round "@ + round@,
{
    let mut s = String::from_str("Successfully disqualified player: ");
    s.append(name);
    s.append("(");
    s.append(tag);
    s.append(") with respective Discord <@");
    s.append(user_id);
    s.append("> at round ");
    s.append(round);
    s
}

/// What the deregistration prompt does with a pressed button.
#[derive(Debug, Clone, Copy, PartialEq, Eq, Structural)]
pub enum DeregisterAction {
    /// Remove the registration and the regional role; the reply says so.
    Confirm,
    /// Keep the registration; the reply says so.
    Cancel,
}

/// The action of the deregistration prompt; it has only these two buttons.
pub fn deregister_action(custom_id: &str) -> (r: DeregisterAction)
    requires
        custom_id@ == "Confirm"@ || custom_id@ == "Cancel"@,
    ensures
        r == if custom_id@ == "Confirm"@ {
            DeregisterAction::Confirm
        } else {
            DeregisterAction::Cancel
        },
{
    if same_text(custom_id, "Confirm") {
        DeregisterAction::Confirm
    } else {
        DeregisterAction::Cancel
    }
}

/// The reply (title, text) after a deregistration button.
pub fn deregister_reply(action: DeregisterAction) -> (r: (String, String))
    ensures
        action == DeregisterAction::Confirm ==> r.0@ == "**Deregistration is successful**"@ && r.1@
            == "Seriously, are you leaving us? We hope to see you in the next tournament!"@,
        action == DeregisterAction::Cancel ==> r.0@ == "**Deregistration cancelled!**"@ && r.1@
            == "Thanks for staying in the tournament with us!"@,
{
    match action {
        DeregisterAction::Confirm => (
            String::from_str("**Deregistration is successful**"),
            String::from_str("Seriously, are you leaving us? We hope to see you in the next tournament!"),
        ),
        DeregisterAction::Cancel => (
            String::from_str("**Deregistration cancelled!**"),
            String::from_str("Thanks for staying in the tournament with us!"),
        ),
    }
}

/// The question asked before deregistering: the account's name and tag and its region.
pub fn deregister_prompt(name: &str, tag: &str, region: crate::region::Region) -> (r: String)
    ensures
        r@ == "You are about to deregister from the tournament. Below information are what you told us!\nYour account name: **"@
            + name@ + "**\nWith your respective tag: **"@ + tag@
            + "**\nAnd you are in the following region: **"@ + crate::region::region_name(region)
            + "**"@,
{
    let mut s = String::from_str(
        "You are about to deregister from the tournament. Below information are what you told us!\nYour account name: **",
    );
    s.append(name);
    s.append("**\nWith your respective tag: **");
    s.append(tag);
    s.append("**\nAnd you are in the following region: **");
    let full = region.full();
    s.append(full.as_str());
    s.append("**");
    s
}

} // verus!
