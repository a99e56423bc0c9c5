use vstd::prelude::*;
use crate::model::{TunnelRecord, TunnelError};

verus! {

/// Longest name, in characters, that a tunnel may carry.
pub const MAX_TUNNEL_NAME_LENGTH: usize = 20;

/// Tag that marks every tunnel this library manages.
pub const VSCODE_CLI_TUNNEL_TAG: &'static str = "vscode-server-launcher";

/// A character allowed in a tunnel name: an ASCII letter or digit, `_` or `-`.
pub open spec fn is_name_char(c: char) -> bool {
    ('a' <= c && c <= 'z') || ('A' <= c && c <= 'Z') || ('0' <= c && c <= '9') || c == '_' || c
        == '-'
}

/// The text is non-empty and made of name characters only.
pub open spec fn matches_name_pattern(s: Seq<char>) -> bool {
    s.len() > 0 && forall|i: int| 0 <= i < s.len() ==> is_name_char(#[trigger] s[i])
}

/// A valid tunnel name: at most twenty characters, matching `^[A-Za-z0-9_-]+$`.
pub open spec fn valid_name(s: Seq<char>) -> bool {
    s.len() <= MAX_TUNNEL_NAME_LENGTH && matches_name_pattern(s)
}

/// The pattern that names must match.
pub open spec fn name_pattern() -> Seq<char> {
    seq!['^', '[', 'A', '-', 'Z', 'a', '-', 'z', '0', '-', '9', '_', '-', ']', '+', '$']
}

/// Some tag of some record equals `name`.
pub open spec fn name_in_use(existing: Seq<TunnelRecord>, name: Seq<char>) -> bool {
    exists|i: int, j: int|
        0 <= i < existing.len() && 0 <= j < existing[i].tags@.len() && (
        #[trigger] existing[i].tags@[j])@ == name
}

#[verifier::external_type_specification]
#[verifier::external_body]
pub struct ExRegexError(regex::Error);

/// Relies on regex::Regex::new and regex::Regex::is_match: the pattern
/// `^[A-Za-z0-9_-]+$` compiles, and matches a text exactly when the text is
/// non-empty and made only of ASCII letters, digits, `_` and `-`.
#[verifier::external_body]
fn regex_is_match(pattern: &str, text: &str) -> (r: Result<bool, regex::Error>)
    ensures
        pattern@ == name_pattern() ==> (r is Ok && r->Ok_0 == matches_name_pattern(text@)),
{
    match regex::Regex::new(pattern) {
        Ok(re) => Ok(re.is_match(text)),
        Err(e) => Err(e),
    }
}

/// Checks a tunnel name against the naming rule.
pub fn is_valid_name(name: &str) -> (r: Result<(), TunnelError>)
    ensures
        r is Ok <==> valid_name(name@),
        r is Err ==> r->Err_0 is InvalidName,
{
    if name.unicode_len() > MAX_TUNNEL_NAME_LENGTH {
        return Err(TunnelError::InvalidName(String::from_str(
            "Names cannot be longer than 20 characters. Please try a different name.",
        )));
    }
    let pattern = "^[A-Za-z0-9_-]+$";
    proof {
        reveal_strlit("^[A-Za-z0-9_-]+$");
        assert(pattern@ =~= name_pattern());
    }
    match regex_is_match(pattern, name) {
        Ok(true) => Ok(()),
        _ => Err(TunnelError::InvalidName(String::from_str(
            "Names can only contain letters, numbers, and '-'. Spaces, commas, and all other special characters are not allowed. Please try a different name.",
        ))),
    }
}

/// No tag of any of `existing` equals `name`.
pub fn is_name_free(existing: &Vec<TunnelRecord>, name: &String) -> (r: bool)
    ensures
        r == !name_in_use(existing@, name@),
{
    let mut i: usize = 0;
    while i < existing.len()
        invariant
            0 <= i <= existing.len(),
            forall|k: int, j: int|
                0 <= k < i && 0 <= j < existing@[k].tags@.len() ==> (
                #[trigger] existing@[k].tags@[j])@ != name@,
        decreases existing.len() - i,
    {
        let tags = &existing[i].tags;
        let mut j: usize = 0;
        while j < tags.len()
            invariant
                0 <= i < existing.len(),
                tags == existing@[i as int].tags,
                0 <= j <= tags.len(),
                forall|k: int, l: int|
                    0 <= k < i && 0 <= l < existing@[k].tags@.len() ==> (
                    #[trigger] existing@[k].tags@[l])@ != name@,
                forall|l: int| 0 <= l < j ==> (#[trigger] tags@[l])@ != name@,
            decreases tags.len() - j,
        {
            if tags[j] == *name {
                return false;
            }
            j = j + 1;
        }
        i = i + 1;
    }
    true
}

/// The tags of a tunnel that carries `name`.
pub fn tunnel_tags(name: &String) -> (r: Vec<String>)
    ensures
        r@.len() == 2,
        r@[0]@ == name@,
        r@[1]@ == VSCODE_CLI_TUNNEL_TAG@,
{
    let mut r: Vec<String> = Vec::new();
    r.push(name.clone());
    r.push(String::from_str(VSCODE_CLI_TUNNEL_TAG));
    r
}

/// The tags that a search for other tunnels carrying `name` must all match.
pub fn name_search_tags(name: &String) -> (r: Vec<String>)
    ensures
        r@.len() == 2,
        r@[0]@ == VSCODE_CLI_TUNNEL_TAG@,
        r@[1]@ == name@,
{
    let mut r: Vec<String> = Vec::new();
    r.push(String::from_str(VSCODE_CLI_TUNNEL_TAG));
    r.push(name.clone());
    r
}

/// Verdict on a name search: the name is free when no tunnel matched.
pub fn check_is_name_free(matching: &Vec<TunnelRecord>, name: &String) -> (r: Result<(), TunnelError>)
    ensures
        r is Ok <==> matching@.len() == 0,
        r is Err ==> r->Err_0 is NameTaken && r->Err_0->NameTaken_0@ == name@,
{
    if matching.len() == 0 {
        Ok(())
    } else {
        Err(TunnelError::NameTaken(name.clone()))
    }
}

} // verus!
