//! The governance authorities: the constitution, the persona governor and the
//! stack architect, their identity check, and the choice of the artifact file
//! that holds each of them in a profile directory.

use vstd::prelude::*;
use vstd::string::StringExecFns;
use crate::text::{chars_of, contains_text, ends_with, find_text, matches_at, str_contains};

verus! {

/// The three governance texts the proxy enforces.
pub struct AuthorityBundle {
    pub cgs_raw: String,
    pub governor_raw: String,
    pub architect_raw: String,
}

/// The verdict of the identity check: each text must name what it is.
pub open spec fn authority_verdict(b: AuthorityBundle) -> Result<(), Seq<char>> {
    if !contains_text(b.cgs_raw@, "CoSyn Constitution"@) {
        Err("CGS identity invalid"@)
    } else if !contains_text(b.governor_raw@, "Persona Governor"@) {
        Err("Governor identity invalid"@)
    } else if !contains_text(b.architect_raw@, "Stack Architect"@) {
        Err("Architect identity invalid"@)
    } else {
        Ok(())
    }
}

pub open spec fn result_view(r: Result<(), String>) -> Result<(), Seq<char>> {
    match r {
        Ok(()) => Ok(()),
        Err(e) => Err(e@),
    }
}

/// Checks that the constitution, the governor and the architect each carry
/// their own title; the error names the first that does not.
pub fn validate_authorities(bundle: &AuthorityBundle) -> (r: Result<(), String>)
    ensures
        result_view(r) == authority_verdict(*bundle),
{
    if !str_contains(bundle.cgs_raw.as_str(), "CoSyn Constitution") {
        return Err("CGS identity invalid".to_owned());
    }
    if !str_contains(bundle.governor_raw.as_str(), "Persona Governor") {
        return Err("Governor identity invalid".to_owned());
    }
    if !str_contains(bundle.architect_raw.as_str(), "Stack Architect") {
        return Err("Architect identity invalid".to_owned());
    }
    Ok(())
}

/// The part of a file name that marks the artifact of a role.
pub open spec fn role_pattern(role: Seq<char>) -> Option<&'static str> {
    if role == "cgs"@ {
        Some("cosyn-constitution")
    } else if role == "governor"@ {
        Some("Persona_Governor")
    } else if role == "architect"@ {
        Some("Stack_Architect")
    } else {
        None
    }
}

/// Whether a file name holds the pattern and ends in ".md".
pub open spec fn names_artifact(name: Seq<char>, pattern: Seq<char>) -> bool {
    contains_text(name, pattern) && ends_with(name, ".md"@)
}

/// The file-name pattern of an artifact role ("cgs", "governor" or
/// "architect"); an unknown role is an error.
pub fn artifact_pattern(role: &str) -> (r: Result<&'static str, String>)
    ensures
        match r {
            Ok(p) => role_pattern(role@) == Some(p),
            Err(e) => role_pattern(role@) is None && e@ == "Unknown artifact role: "@ + role@,
        },
{
    let rc = chars_of(role);
    if crate::text::is_word(&rc, "cgs") {
        Ok("cosyn-constitution")
    } else if crate::text::is_word(&rc, "governor") {
        Ok("Persona_Governor")
    } else if crate::text::is_word(&rc, "architect") {
        Ok("Stack_Architect")
    } else {
        let mut e = "Unknown artifact role: ".to_owned();
        e.append(role);
        Err(e)
    }
}

fn ends_with_md(name: &Vec<char>) -> (r: bool)
    ensures
        r == ends_with(name@, ".md"@),
{
    let md = chars_of(".md");
    if md.len() > name.len() {
        return false;
    }
    matches_at(name, &md, name.len() - md.len())
}

/// Chooses, among the file names of a profile directory in the order they
/// were listed, the first that holds the role's pattern and ends in ".md".
/// An unknown role, or a directory without such a file, is an error.
pub fn select_artifact(dir: &str, names: &[String], role: &str) -> (r: Result<usize, String>)
    ensures
        match r {
            Ok(i) => {
                &&& role_pattern(role@) is Some
                &&& i < names@.len()
                &&& names_artifact(names@[i as int]@, role_pattern(role@)->0@)
                &&& forall|j: int|
                    0 <= j < i ==> !names_artifact(#[trigger] names@[j]@, role_pattern(role@)->0@)
            },
            Err(e) => {
                ||| role_pattern(role@) is None && e@ == "Unknown artifact role: "@ + role@
                ||| role_pattern(role@) is Some && (forall|j: int|
                    0 <= j < names@.len() ==> !names_artifact(
                        #[trigger] names@[j]@,
                        role_pattern(role@)->0@,
                    )) && e@ == "No "@ + role@ + " artifact found in "@ + dir@
            },
        },
{
    let pattern = match artifact_pattern(role) {
        Ok(p) => p,
        Err(e) => {
            return Err(e);
        },
    };
    let pc = chars_of(pattern);
    let mut i: usize = 0;
    while i < names.len()
        invariant
            0 <= i <= names@.len(),
            role_pattern(role@) == Some(pattern),
            pc@ == pattern@,
            forall|j: int| 0 <= j < i ==> !names_artifact(#[trigger] names@[j]@, pattern@),
        decreases names.len() - i,
    {
        let nc = chars_of(names[i].as_str());
        if find_text(&nc, &pc) && ends_with_md(&nc) {
            return Ok(i);
        }
        i = i + 1;
    }
    let mut e = "No ".to_owned();
    e.append(role);
    e.append(" artifact found in ");
    e.append(dir);
    assert(e@ =~= "No "@ + role@ + " artifact found in "@ + dir@);
    Err(e)
}

} // verus!
