//! Command-line arguments: splitting a shell-quoted string into words, and
//! resolving the arguments that apply to a workspace.

use vstd::prelude::*;
use vstd::string::*;
use crate::text::{blank, lemma_trimmed_empty_iff_blank, non_blank, non_blank_text, trim, trimmed};
use crate::types::{AppSettings, WorkspaceEntry};

verus! {

/// The words that `shell_words::split` makes of `s`; `None` where it reports
/// a quote that is never closed.
pub uninterp spec fn shell_split(s: Seq<char>) -> Option<Seq<Seq<char>>>;

#[verifier::external_type_specification]
#[verifier::external_body]
pub struct ExParseError(shell_words::ParseError);

/// Calls `shell_words::split`, which walks the characters of `s` once and
/// depends on nothing else. The contract claims only that its answer is the
/// one that `shell_split` names: the words on success, `None` on its error.
#[verifier::external_body]
fn split_words(s: &str) -> (r: Result<Vec<String>, shell_words::ParseError>)
    ensures
        r matches Ok(words) ==> shell_split(s@) == Some(words.deep_view()),
        r is Err ==> shell_split(s@) is None,
{
    shell_words::split(s)
}

/// Calls `to_string` on a `shell_words::ParseError`. Its `Display` writes the
/// same three words for every value, which is what the contract claims.
#[verifier::external_body]
fn parse_error_text(e: &shell_words::ParseError) -> (r: String)
    ensures
        r@ == "missing closing quote"@,
{
    e.to_string()
}

/// Why a string of arguments was rejected.
#[derive(Debug, Clone, PartialEq, Eq)]
pub enum ArgsError {
    /// The string is not validly shell-quoted; holds the tokenizer's own words.
    InvalidQuoting(String),
}

impl ArgsError {
    /// The text shown to the user.
    pub open spec fn message_text(&self) -> Seq<char> {
        match self {
            ArgsError::InvalidQuoting(detail) => "Invalid Codex args: "@ + detail@,
        }
    }

    /// The text shown to the user.
    pub fn message(&self) -> (r: String)
        ensures
            r@ == self.message_text(),
    {
        match self {
            ArgsError::InvalidQuoting(detail) => {
                let mut text = "Invalid Codex args: ".to_owned();
                text.append(detail.as_str());
                text
            },
        }
    }
}

/// The words of `words` that hold at least one character, in their order.
pub open spec fn non_empty_words(words: Seq<Seq<char>>) -> Seq<Seq<char>> {
    words.filter(|w: Seq<char>| w.len() > 0)
}

/// The arguments that a raw setting stands for: none where it is absent or
/// blank, else the non-empty words of its trimmed text; `None` where that
/// text is not validly quoted.
pub open spec fn parsed_args(value: Option<Seq<char>>) -> Option<Seq<Seq<char>>> {
    match value {
        None => Some(Seq::empty()),
        Some(raw) => if trimmed(raw).len() == 0 {
            Some(Seq::empty())
        } else {
            match shell_split(trimmed(raw)) {
                Some(words) => Some(non_empty_words(words)),
                None => None,
            }
        },
    }
}

/// Drops the empty words, keeping the others in their order.
pub fn drop_empty_args(words: Vec<String>) -> (r: Vec<String>)
    ensures
        r.deep_view() == non_empty_words(words.deep_view()),
{
    let ghost all = words.deep_view();
    let ghost keep = |w: Seq<char>| w.len() > 0;
    let mut kept: Vec<String> = Vec::new();
    let mut i: usize = 0;
    proof {
        reveal(Seq::filter);
        assert(all.take(0).filter(keep) =~= Seq::<Seq<char>>::empty());
        assert(kept.deep_view() =~= Seq::<Seq<char>>::empty());
    }
    while i < words.len()
        invariant
            i <= words.len(),
            all == words.deep_view(),
            keep == (|w: Seq<char>| w.len() > 0),
            kept.deep_view() == all.take(i as int).filter(keep),
        decreases words.len() - i,
    {
        let word = &words[i];
        let ghost before = kept.deep_view();
        proof {
            assert(all.take(i + 1) =~= all.take(i as int).push(word@));
            all.take(i as int).lemma_filter_push(word@, keep);
        }
        if !word.as_str().is_empty() {
            kept.push(word.clone());
            assert(kept.deep_view() =~= before.push(word@));
        }
        i = i + 1;
    }
    assert(all.take(i as int) =~= all);
    kept
}

/// Splits a raw argument string into its arguments.
///
/// Absent or blank input gives no arguments. Otherwise the trimmed text is
/// split by shell quoting rules and the empty words are dropped. A quote that
/// is never closed is an error.
pub fn parse_codex_args(value: Option<&str>) -> (r: Result<Vec<String>, ArgsError>)
    ensures
        match r {
            Ok(args) => parsed_args(value.deep_view()) == Some(args.deep_view()),
            Err(e) => parsed_args(value.deep_view()) is None
                && e.message_text() == "Invalid Codex args: missing closing quote"@,
        },
        value is None || blank(value->0@) ==> r is Ok && r->Ok_0@.len() == 0,
{
    let raw = match value {
        Some(raw) => trim(raw),
        None => {
            let none: Vec<String> = Vec::new();
            assert(none.deep_view() =~= Seq::<Seq<char>>::empty());
            return Ok(none);
        },
    };
    proof {
        lemma_trimmed_empty_iff_blank(value->0@);
    }
    if raw.is_empty() {
        let none: Vec<String> = Vec::new();
        assert(none.deep_view() =~= Seq::<Seq<char>>::empty());
        return Ok(none);
    }
    match split_words(raw) {
        Ok(words) => Ok(drop_empty_args(words)),
        Err(e) => {
            let err = ArgsError::InvalidQuoting(parse_error_text(&e));
            proof {
                reveal_strlit("Invalid Codex args: ");
                reveal_strlit("missing closing quote");
                reveal_strlit("Invalid Codex args: missing closing quote");
                assert(err.message_text() =~= "Invalid Codex args: missing closing quote"@);
            }
            Err(err)
        },
    }
}

/// The arguments in force for any workspace: those of the application
/// settings, normalized. No workspace has a say.
pub open spec fn effective_args(app_settings: Option<AppSettings>) -> Option<Seq<char>> {
    match app_settings {
        Some(settings) => match settings.codex_args {
            Some(value) => non_blank(value@),
            None => None,
        },
        None => None,
    }
}

/// Trims a raw argument string; a blank one stands for no arguments.
pub fn normalize_codex_args(value: &str) -> (r: Option<String>)
    ensures
        r.deep_view() == non_blank(value@),
        r is None <==> blank(value@),
{
    non_blank_text(value)
}

/// Resolves the argument string that applies to a workspace.
///
/// Only the application settings are consulted: the result is the same for
/// every workspace and every parent.
pub fn resolve_workspace_codex_args(
    _entry: &WorkspaceEntry,
    _parent_entry: Option<&WorkspaceEntry>,
    app_settings: Option<&AppSettings>,
) -> (r: Option<String>)
    ensures
        r.deep_view() == effective_args(
            match app_settings {
                Some(settings) => Some(*settings),
                None => None,
            },
        ),
{
    if let Some(settings) = app_settings {
        if let Some(value) = &settings.codex_args {
            return normalize_codex_args(value.as_str());
        }
    }
    None
}

} // verus!
