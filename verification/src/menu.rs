//! What the selection menus offer and what a confirmed choice means.

use crate::environment::{value_or_empty, Environment, AWS_DEFAULT_PROFILE, AWS_DEFAULT_REGION};
use std::collections::HashMap;
use vstd::prelude::*;
use vstd::std_specs::hash::*;
use vstd::std_specs::iter::IteratorSpec;
use vstd::string::*;

verus! {

/// How many regions the region menu offers.
pub const REGION_COUNT: usize = 36;

/// The lines of the region menu: a region and where it is.
pub const REGIONS_DISPLAY: [&'static str; 36] = [
    "af-south-1     | Cape Town",
    "ap-east-1      | Hong Kong",
    "ap-northeast-1 | Tokyo",
    "ap-northeast-2 | Seoul",
    "ap-northeast-3 | Osaka-Local",
    "ap-south-1     | Mumbai",
    "ap-south-2     | Hyderabad",
    "ap-southeast-1 | Singapore",
    "ap-southeast-2 | Sydney",
    "ap-southeast-3 | Jakarta",
    "ap-southeast-4 | Melbourne",
    "ap-southeast-5 | Malaysia",
    "ap-southeast-7 | Thailand",
    "ca-central-1   | Canada (Central)",
    "ca-west-1      | Calgary",
    "cn-north-1     | Beijing",
    "cn-nortwest-1  | Ningxia",
    "eu-central-1   | Frankfurt",
    "eu-central-2   | Zurich",
    "eu-north-1     | Stockholm",
    "eu-south-1     | Milan",
    "eu-south-2     | Spain",
    "eu-west-1      | Ireland",
    "eu-west-2      | London",
    "eu-west-3      | Paris",
    "il-central-1   | Tel Aviv",
    "me-central-1   | UAE",
    "me-south-1     | Bahrain",
    "mx-central-1   | Mexico (Central)",
    "sa-east-1      | SÃ£o Paulo",
    "us-east-1      | N. Virginia",
    "us-east-2      | Ohio",
    "us-gov-east-1  | AWS GovCloud (US-East)",
    "us-gov-west-1  | AWS GovCloud (US-West)",
    "us-west-1      | N. California",
    "us-west-2      | Oregon",
];

/// The regions, in the order of the menu's lines.
pub const REGIONS: [&'static str; 36] = [
    "af-south-1",
    "ap-east-1",
    "ap-northeast-1",
    "ap-northeast-2",
    "ap-northeast-3",
    "ap-south-1",
    "ap-south-2",
    "ap-southeast-1",
    "ap-southeast-2",
    "ap-southeast-3",
    "ap-southeast-4",
    "ap-southeast-5",
    "ap-southeast-7",
    "ca-central-1",
    "ca-west-1",
    "cn-north-1",
    "cn-nortwest-1",
    "eu-central-1",
    "eu-central-2",
    "eu-north-1",
    "eu-south-1",
    "eu-south-2",
    "eu-west-1",
    "eu-west-2",
    "eu-west-3",
    "il-central-1",
    "me-central-1",
    "me-south-1",
    "mx-central-1",
    "sa-east-1",
    "us-east-1",
    "us-east-2",
    "us-gov-east-1",
    "us-gov-west-1",
    "us-west-1",
    "us-west-2",
];

/// Why a menu gave no selection.
#[derive(Clone, Copy, Debug, PartialEq, Eq, Structural)]
pub enum MenuInteractionError {
    /// The interaction ended before a line was confirmed.
    Aborted,
    /// The confirmed line is not one of the menu's lines.
    OutOfRange,
}

/// What a menu asks: a word for what is chosen, then the value in force.
pub open spec fn prompt_text(what: Seq<char>, current: Seq<char>) -> Seq<char> {
    what + " (current: "@ + current + " )"@
}

/// The text that reports the selection in force after the menus.
pub open spec fn selection_text(vars: Map<Seq<char>, Seq<char>>) -> Seq<char> {
    "\u{1b}c\n ->  Profile: "@ + value_or_empty(vars, AWS_DEFAULT_PROFILE@) + " | Region: "@
        + value_or_empty(vars, AWS_DEFAULT_REGION@) + " \n\n"@
}

/// What a confirmed selection among `count` lines leads to.
pub open spec fn checked(selection: Option<usize>, count: nat) -> Result<int, MenuInteractionError> {
    match selection {
        None => Err(MenuInteractionError::Aborted),
        Some(i) => if i < count {
            Ok(i as int)
        } else {
            Err(MenuInteractionError::OutOfRange)
        },
    }
}

/// The names in `names`, as the contracts speak of them.
pub open spec fn names_view(names: Seq<String>) -> Seq<Seq<char>> {
    names.map_values(|name: String| name@)
}

/// The keys of `map`, each exactly once, in the order in which the map hands
/// them out. The key type has to hash and compare as the map model expects.
pub fn to_key_list<K, V>(map: &HashMap<K, V>) -> (key_list: Vec<&K>)
    requires
        obeys_key_model::<K>(),
    ensures
        key_list@.len() == map@.dom().len(),
        key_list@.no_duplicates(),
        key_list@.unref().to_set() == map@.dom(),
{
    broadcast use {axiom_random_state_builds_valid_hashers, axiom_spec_keys_iter};
    let mut key_list: Vec<&K> = Vec::new();
    for key in it: map.keys()
        invariant
            key_list@ == it.seq().take(it.index()),
            it.seq() == spec_keys_iter(map).remaining(),
    {
        key_list.push(key);
    }
    assert(key_list@ =~= spec_keys_iter(map).remaining());
    key_list
}

/// The prompt of the profile menu.
pub fn profile_prompt(env: &Environment) -> (prompt: String)
    ensures
        prompt@ == prompt_text("profile"@, value_or_empty(env@, AWS_DEFAULT_PROFILE@)),
{
    let current = env.default_env(AWS_DEFAULT_PROFILE);
    String::from_str("profile").concat(" (current: ").concat(current.as_str()).concat(" )")
}

/// The prompt of the region menu.
pub fn region_prompt(env: &Environment) -> (prompt: String)
    ensures
        prompt@ == prompt_text("region"@, value_or_empty(env@, AWS_DEFAULT_REGION@)),
{
    let current = env.default_env(AWS_DEFAULT_REGION);
    String::from_str("region").concat(" (current: ").concat(current.as_str()).concat(" )")
}

/// The text to show once the menus are done: a screen reset, then the profile
/// and the region in force.
pub fn display_selected(env: &Environment) -> (text: String)
    ensures
        text@ == selection_text(env@),
{
    let profile = env.default_env(AWS_DEFAULT_PROFILE);
    let region = env.default_env(AWS_DEFAULT_REGION);
    String::from_str("\u{1b}c\n ->  Profile: ").concat(profile.as_str()).concat(
        " | Region: ",
    ).concat(region.as_str()).concat(" \n\n")
}

/// Takes the outcome of the profile menu over `profiles`: the profile on the
/// confirmed line becomes the selected profile. Without a line among them
/// nothing is set.
pub fn profile_menu(env: &mut Environment, profiles: &Vec<String>, selection: Option<usize>) -> (done:
    Result<(), MenuInteractionError>)
    ensures
        match checked(selection, profiles@.len()) {
            Ok(i) => done is Ok && final(env)@ == old(env)@.insert(
                AWS_DEFAULT_PROFILE@,
                profiles@[i]@,
            ),
            Err(error) => done == Err::<(), MenuInteractionError>(error) && final(env)@ == old(
                env,
            )@,
        },
{
    match selection {
        None => Err(MenuInteractionError::Aborted),
        Some(i) => if i < profiles.len() {
            env.select_profile(profiles[i].as_str());
            Ok(())
        } else {
            Err(MenuInteractionError::OutOfRange)
        },
    }
}

/// Takes the outcome of the region menu: the region of the confirmed line
/// becomes the selected region. Without a line of the menu nothing is set.
pub fn region_menu(env: &mut Environment, selection: Option<usize>) -> (done: Result<
    (),
    MenuInteractionError,
>)
    ensures
        match checked(selection, REGION_COUNT as nat) {
            Ok(i) => done is Ok && final(env)@ == old(env)@.insert(
                AWS_DEFAULT_REGION@,
                REGIONS[i]@,
            ),
            Err(error) => done == Err::<(), MenuInteractionError>(error) && final(env)@ == old(
                env,
            )@,
        },
{
    match selection {
        None => Err(MenuInteractionError::Aborted),
        Some(i) => if i < REGION_COUNT {
            env.select_region(REGIONS[i]);
            Ok(())
        } else {
            Err(MenuInteractionError::OutOfRange)
        },
    }
}

} // verus!
