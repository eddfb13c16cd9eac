//! The checks that the client makes on requests before it sends them and on
//! replies after it has decoded them.

use crate::error::{RQError, RQErrorView};
use vstd::prelude::*;
use vstd::string::StrSliceExecFns;

verus! {

/// The longest wording of a custom status, in characters.
pub const WORDING_MAX_CHARS: usize = 4;

/// A custom online status.
#[derive(Debug, Clone, PartialEq, Eq)]
pub struct CustomOnlineStatus {
    pub face_index: u64,
    pub wording: String,
}

/// An online status to set.
#[derive(Debug, Clone, PartialEq, Eq)]
pub struct Status {
    pub online_status: i32,
    pub ext_online_status: i64,
    pub custom_status: Option<CustomOnlineStatus>,
}

/// A wording is valid if it has at least one character and at most four.
pub open spec fn wording_valid(wording: Seq<char>) -> bool {
    1 <= wording.len() <= WORDING_MAX_CHARS
}

/// A status is valid if it has no custom status, or one with a valid
/// wording.
pub open spec fn status_valid(status: Status) -> bool {
    status.custom_status matches Some(custom) ==> wording_valid(custom.wording@)
}

/// The error of a custom status whose wording is empty or too long.
pub open spec fn invalid_wording() -> RQErrorView {
    RQErrorView::Other("invalid wording length"@)
}

/// The error of a translation that answers with another number of texts
/// than it was asked for.
pub open spec fn translate_length_error() -> RQErrorView {
    RQErrorView::Other("translate length error"@)
}

/// Checks an online status before it is sent.
pub fn check_status(status: &Status) -> (checked: Result<(), RQError>)
    ensures
        status_valid(*status) ==> checked is Ok,
        !status_valid(*status) ==> (checked matches Err(e) && e@ == invalid_wording()),
{
    match &status.custom_status {
        Some(custom) => {
            let chars: usize = custom.wording.as_str().unicode_len();
            if chars == 0 || chars > WORDING_MAX_CHARS {
                Err(RQError::Other("invalid wording length".to_owned()))
            } else {
                Ok(())
            }
        },
        None => Ok(()),
    }
}

/// Checks the translations that came for `requested` texts: there must be
/// as many. The translations are handed on as they are.
pub fn check_translations(requested: usize, translations: Vec<String>) -> (checked: Result<
    Vec<String>,
    RQError,
>)
    ensures
        translations@.len() == requested ==> checked == Ok::<Vec<String>, RQError>(translations),
        translations@.len() != requested ==> (checked matches Err(e) && e@
            == translate_length_error()),
{
    if translations.len() != requested {
        Err(RQError::Other("translate length error".to_owned()))
    } else {
        Ok(translations)
    }
}

} // verus!
