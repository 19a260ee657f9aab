//! Error handling.

use vstd::prelude::*;
use vstd::string::*;
use vstd::utf8::{decode_utf8, valid_utf8};

use crate::status::AmdStatus;
use crate::text::{decimal, law_decimal_denotes, push_decimal, utf8_text, utf8_to_string};
use crate::LIB_PATH;

verus! {

/// The error that `libloading` reports when the shared library or one of
/// its symbols cannot be loaded.
#[verifier::external_type_specification]
#[verifier::external_body]
pub struct ExLoadError(libloading::Error);

/// Error while using the AMD SMI library.
#[derive(Debug, PartialEq, Eq)]
pub struct AmdError {
    /// The underlying status provided by amdsmi library.
    pub status: AmdStatus,
    /// Detailed description of the error.
    pub message: Option<String>,
}

/// The outcome of checking the status of a call: success, or the error
/// that carries the status and the library's description of it.
pub open spec fn status_check(status: AmdStatus, message: Option<String>) -> Result<(), AmdError> {
    if status.succeeded() {
        Ok(())
    } else {
        Err(AmdError { status, message })
    }
}

/// Checking a status gives `Ok` exactly for code 0, and otherwise the error
/// that holds that very status and message.
pub proof fn law_status_check(status: AmdStatus, message: Option<String>)
    ensures
        status_check(status, message) is Ok <==> status.0 == 0,
        status.0 != 0 ==> status_check(status, message) == Err::<(), AmdError>(AmdError { status, message }),
{
}

/// How a status prints: `amdsmi_status_t(<code>)`.
pub open spec fn status_text(status: AmdStatus) -> Seq<char> {
    "amdsmi_status_t("@ + decimal(status.0 as nat) + ")"@
}

/// The printed form of a status names it exactly: two statuses print alike
/// only when they are the same status.
pub proof fn law_status_text_names_status(a: AmdStatus, b: AmdStatus)
    requires
        status_text(a) == status_text(b),
    ensures
        a == b,
{
    let p = "amdsmi_status_t("@;
    let q = ")"@;
    let da = decimal(a.0 as nat);
    let db = decimal(b.0 as nat);
    assert(status_text(a).len() == p.len() + da.len() + q.len());
    assert(da =~= status_text(a).subrange(p.len() as int, (p.len() + da.len()) as int));
    assert(db =~= status_text(b).subrange(p.len() as int, (p.len() + db.len()) as int));
    law_decimal_denotes(a.0 as nat);
    law_decimal_denotes(b.0 as nat);
}

/// The text of an error starts with `amd-smi error amdsmi_status_t(`, and
/// ends with `: ` and the message when there is one, with `)` otherwise.
pub proof fn law_error_text_layout(e: AmdError)
    ensures
        e.text().len() >= 31,
        e.text().take(30) == "amd-smi error amdsmi_status_t("@,
        e.message matches Some(m) ==> e.text().skip(e.text().len() - m@.len() - 2) == ": "@ + m@,
        e.message is None ==> e.text().last() == ')',
{
    reveal_strlit("amd-smi error amdsmi_status_t(");
    reveal_strlit("amd-smi error ");
    reveal_strlit("amdsmi_status_t(");
    reveal_strlit(")");
    reveal_strlit(": ");
    law_decimal_denotes(e.status.0 as nat);
    let head = "amd-smi error "@ + "amdsmi_status_t("@;
    assert(head =~= "amd-smi error amdsmi_status_t("@);
    let body = head + decimal(e.status.0 as nat) + ")"@;
    match e.message {
        Some(m) => {
            assert(e.text() =~= body + (": "@ + m@));
            assert(e.text().skip(e.text().len() - m@.len() - 2) =~= ": "@ + m@);
            assert(e.text().take(30) =~= head);
        },
        None => {
            assert(e.text() =~= body);
            assert(e.text().take(30) =~= head);
        },
    }
}

impl AmdError {
    /// The text of the error: `amd-smi error <status>`, followed by
    /// `: <message>` when there is a message.
    pub open spec fn text(&self) -> Seq<char> {
        "amd-smi error "@ + status_text(self.status) + match self.message {
            Some(m) => ": "@ + m@,
            None => Seq::<char>::empty(),
        }
    }

    /// Renders the error as text (what `Display` shows).
    pub fn describe(&self) -> (res: String)
        ensures
            res@ == self.text(),
    {
        let mut out = String::from_str("amd-smi error ");
        out.append("amdsmi_status_t(");
        push_decimal(&mut out, self.status.0);
        out.append(")");
        match &self.message {
            Some(m) => {
                out.append(": ");
                out.append(m.as_str());
            },
            None => {},
        }
        assert(out@ =~= self.text());
        out
    }
}

/// The description that a status lookup yields: present only when the
/// lookup itself succeeded, pointed at a text, and that text is UTF-8.
pub open spec fn looked_up_message(result: AmdStatus, text: Option<Seq<u8>>) -> Option<Seq<char>> {
    match text {
        Some(bytes) => if result.succeeded() {
            utf8_text(bytes)
        } else {
            None
        },
        None => None,
    }
}

/// A looked-up description exists exactly when the lookup returned code 0
/// and pointed at bytes that are valid UTF-8, and it is those bytes decoded.
pub proof fn law_looked_up_message(result: AmdStatus, text: Option<Seq<u8>>)
    ensures
        looked_up_message(result, text) is Some <==> (result.0 == 0 && text is Some && valid_utf8(text->0)),
        looked_up_message(result, text) matches Some(m) ==> m == decode_utf8(text->0),
{
}

/// The text of an optional string.
pub open spec fn opt_text(s: Option<String>) -> Option<Seq<char>> {
    match s {
        Some(s) => Some(s@),
        None => None,
    }
}

/// Returns a detailed description of a status code, from what the lookup
/// of that code (`amdsmi_status_code_to_string`) gave back: `result` is the
/// status of the lookup, and `text` the bytes of the C string it pointed at,
/// `None` when the pointer was null.
pub fn message_for_status(result: AmdStatus, text: Option<Vec<u8>>) -> (res: Option<String>)
    ensures
        opt_text(res) == looked_up_message(result, match text {
            Some(t) => Some(t@),
            None => None,
        }),
        res is Some <==> (result.0 == 0 && text is Some && valid_utf8(text->0@)),
        res matches Some(m) ==> m@ == decode_utf8(text->0@),
{
    match text {
        Some(bytes) => if result.is_success() {
            utf8_to_string(bytes)
        } else {
            None
        },
        None => None,
    }
}

/// Error while initializing the AMD SMI library.
#[derive(Debug)]
pub enum AmdInitError {
    /// The library was loaded but refused to initialize.
    Init(AmdError),
    /// The shared library could not be loaded.
    Load(libloading::Error),
}

impl AmdInitError {
    /// The text of the error.
    pub open spec fn text(&self) -> Seq<char> {
        match self {
            AmdInitError::Init(_) => "amd-smi init error"@,
            AmdInitError::Load(_) => "Failed to load "@ + LIB_PATH@,
        }
    }

    /// Renders the error as text (what `Display` shows).
    pub fn describe(&self) -> (res: String)
        ensures
            res@ == self.text(),
    {
        match self {
            AmdInitError::Init(_) => String::from_str("amd-smi init error"),
            AmdInitError::Load(_) => {
                let mut out = String::from_str("Failed to load ");
                out.append(LIB_PATH);
                out
            },
        }
    }
}

impl From<AmdError> for AmdInitError {
    fn from(err: AmdError) -> (res: Self) {
        AmdInitError::Init(err)
    }
}

impl vstd::std_specs::convert::FromSpecImpl<AmdError> for AmdInitError {
    open spec fn obeys_from_spec() -> bool {
        true
    }

    open spec fn from_spec(v: AmdError) -> Self {
        AmdInitError::Init(v)
    }
}

impl From<libloading::Error> for AmdInitError {
    fn from(err: libloading::Error) -> (res: Self) {
        AmdInitError::Load(err)
    }
}

impl vstd::std_specs::convert::FromSpecImpl<libloading::Error> for AmdInitError {
    open spec fn obeys_from_spec() -> bool {
        true
    }

    open spec fn from_spec(v: libloading::Error) -> Self {
        AmdInitError::Load(v)
    }
}

} // verus!
