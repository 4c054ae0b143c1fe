//! Label values: how optional fields and flags become text.

use vstd::prelude::*;

verus! {

/// The text of an optional field: its content, or nothing where it is absent.
pub open spec fn or_empty(field: Option<String>) -> Seq<char> {
    match field {
        Some(text) => text@,
        None => Seq::empty(),
    }
}

/// The text of a flag.
pub open spec fn flag_text(flag: bool) -> Seq<char> {
    if flag {
        "true"@
    } else {
        "false"@
    }
}

/// The two flags are written differently.
pub proof fn lemma_flag_text_tells_flags_apart(one: bool, other: bool)
    ensures
        flag_text(one) == flag_text(other) <==> one == other,
{
    reveal_strlit("true");
    reveal_strlit("false");
    assert("true"@.len() == 4 && "false"@.len() == 5);
}

/// The label value of an optional field. An absent field gives the empty
/// string, never no label at all.
pub fn label_or_empty(field: &Option<String>) -> (label: String)
    ensures
        label@ == or_empty(*field),
{
    match field {
        Some(text) => text.clone(),
        None => String::new(),
    }
}

/// The label value of a flag: `true` or `false`.
pub fn flag_label(flag: bool) -> (label: String)
    ensures
        label@ == flag_text(flag),
{
    if flag {
        "true".to_owned()
    } else {
        "false".to_owned()
    }
}

/// Whether a string holds exactly the text of `word`.
pub fn is_word(text: &String, word: &str) -> (same: bool)
    ensures
        same == (text@ == word@),
{
    let owned = word.to_owned();
    *text == owned
}

} // verus!
