//! The outcome of one linker invocation: the record that the native side
//! fills, and the owned value that the caller receives.

use vstd::prelude::*;
use vstd::utf8::{decode_utf8, valid_utf8};

verus! {

/// The text that lossy UTF-8 decoding makes of `bytes`: the decoded
/// characters, with U+FFFD in place of every malformed part.
pub uninterp spec fn lossy_text(bytes: Seq<u8>) -> Seq<char>;

/// Decodes `bytes` as UTF-8, replacing what is malformed; never fails.
///
/// Calls `String::from_utf8_lossy` and takes the result as an owned string.
/// Trusted: the result is a function of the bytes alone, named
/// [`lossy_text`]; where the bytes are valid UTF-8, it is the text that they
/// encode.
#[verifier::external_body]
fn decode_lossy(bytes: &[u8]) -> (text: String)
    ensures
        text@ == lossy_text(bytes@),
        valid_utf8(bytes@) ==> text@ == decode_utf8(bytes@),
{
    String::from_utf8_lossy(bytes).into_owned()
}

/// What an [`LLDInvokeResult`] stands for: the success flag and the bytes of
/// the diagnostic string, `None` for a null pointer.
pub struct LLDInvokeResultView {
    pub success: bool,
    pub messages: Option<Seq<u8>>,
}

/// The outcome record of the native entry point, as read before its release.
///
/// The native record holds a success flag and a pointer to a null-terminated
/// diagnostic string that the native side owns; the pointer may be null. Here
/// the string is held by its bytes, without the terminator, and a null pointer
/// is `None`.
#[derive(Debug)]
pub struct LLDInvokeResult {
    success: bool,
    messages: Option<Vec<u8>>,
}

impl View for LLDInvokeResult {
    type V = LLDInvokeResultView;

    closed spec fn view(&self) -> LLDInvokeResultView {
        LLDInvokeResultView {
            success: self.success,
            messages: match self.messages {
                Some(bytes) => Some(bytes@),
                None => None,
            },
        }
    }
}

impl LLDInvokeResult {
    /// Builds a record from the success flag and the diagnostic bytes.
    #[inline]
    pub fn new(success: bool, messages: Option<Vec<u8>>) -> (record: LLDInvokeResult)
        ensures
            record@.success == success,
            record@.messages == match messages {
                Some(bytes) => Some(bytes@),
                None => None,
            },
    {
        Self { success, messages }
    }

    /// The success flag.
    #[inline]
    pub fn get_sucess(&self) -> (success: bool)
        ensures
            success == self@.success,
    {
        self.success
    }

    /// The diagnostic bytes; `None` where the native pointer was null.
    #[inline]
    pub fn get_messages(&self) -> (messages: Option<&Vec<u8>>)
        ensures
            self@.messages == match messages {
                Some(bytes) => Some(bytes@),
                None => None,
            },
    {
        self.messages.as_ref()
    }
}

/// What an [`LLDResult`] stands for: the success flag and the diagnostic text.
pub struct LLDResultView {
    pub success: bool,
    pub messages: Seq<char>,
}

/// The diagnostic text that a record yields: the lossy decoding of its bytes,
/// and the empty text for a null pointer.
pub open spec fn diagnostic_text(messages: Option<Seq<u8>>) -> Seq<char> {
    match messages {
        Some(bytes) => lossy_text(bytes),
        None => Seq::empty(),
    }
}

/// The outcome that a record yields: its flag as it is, and its diagnostic
/// text.
pub open spec fn copied(record: LLDInvokeResultView) -> LLDResultView {
    LLDResultView { success: record.success, messages: diagnostic_text(record.messages) }
}

/// The host-owned outcome of one invocation.
///
/// The diagnostic text is an owned string: nothing in it refers to memory of
/// the native side.
#[derive(Debug)]
pub struct LLDResult {
    success: bool,
    messages: String,
}

impl View for LLDResult {
    type V = LLDResultView;

    closed spec fn view(&self) -> LLDResultView {
        LLDResultView { success: self.success, messages: self.messages@ }
    }
}

impl LLDResult {
    /// Builds an outcome from a success flag and the diagnostic text.
    #[inline]
    pub fn new(success: bool, messages: String) -> (result: LLDResult)
        ensures
            result@ == (LLDResultView { success, messages: messages@ }),
    {
        Self { success, messages }
    }

    /// Copies a native record into an owned outcome: the flag as it is, the
    /// diagnostic bytes decoded lossily, the empty text for a null pointer.
    pub fn copy_of(record: &LLDInvokeResult) -> (result: LLDResult)
        ensures
            result@ == copied(record@),
            record@.messages is Some && valid_utf8(record@.messages->0) ==> result@.messages
                == decode_utf8(record@.messages->0),
    {
        let messages = match record.get_messages() {
            Some(bytes) => decode_lossy(bytes.as_slice()),
            None => String::new(),
        };
        LLDResult::new(record.get_sucess(), messages)
    }

    /// The success flag.
    #[inline]
    pub fn success(&self) -> (success: bool)
        ensures
            success == self@.success,
    {
        self.success
    }

    /// The diagnostic text; empty where the linker said nothing.
    #[inline]
    pub fn messages(&self) -> (messages: &str)
        ensures
            messages@ == self@.messages,
    {
        self.messages.as_str()
    }

    /// Turns the outcome into a `Result`: success whatever the diagnostics say,
    /// failure with the diagnostic text as its detail.
    #[inline]
    pub fn ok(self) -> (outcome: Result<(), String>)
        ensures
            self@.success ==> outcome is Ok,
            !self@.success ==> outcome is Err && outcome->Err_0@ == self@.messages,
    {
        if self.success {
            return Ok(());
        }
        Err(self.messages)
    }
}

} // verus!
