//! The two error enumerations and the translator between them.

use vstd::prelude::*;
use crate::decimal::dec_digits;
use crate::decimal::u64_to_decimal;

verus! {

/// A failure reported by the profile subsystem.
///
/// The four expected kinds have a dedicated counterpart in [`CliError`];
/// any further variant (here, `PermissionDenied`) has none and is carried
/// across the translation by the generic fallback.
#[derive(Debug, Clone, PartialEq, Eq)]
pub enum ProfileError {
    /// The requested profile does not exist.
    NotFound,
    /// The profile's persisted representation could not be parsed.
    InvalidFormat,
    /// A lower-level read or write failed; wraps the failure detail.
    IoError(String),
    /// Encoding or decoding of a profile failed; wraps the failure detail.
    SerializationError(String),
    /// The profile exists but the given user may not touch it. No dedicated
    /// mapping exists for this variant: the translator falls back to
    /// [`CliError::Other`].
    PermissionDenied { uid: u64 },
}

/// A failure as the CLI's presentation layer consumes it, normalized
/// across subsystems.
#[derive(Debug, Clone, PartialEq, Eq)]
pub enum CliError {
    /// The requested profile does not exist.
    ProfileNotFound,
    /// The profile's persisted representation could not be parsed.
    InvalidProfileFormat,
    /// A lower-level read or write failed; carries the subsystem's failure
    /// detail unchanged.
    IoError(String),
    /// Encoding or decoding failed; carries the subsystem's failure detail
    /// unchanged.
    SerializationError(String),
    /// Fallback for a subsystem failure with no dedicated mapping; the
    /// message embeds a full structured rendering of the original error.
    Other(String),
}

/// The mathematical model of a [`ProfileError`]: string payloads become
/// character sequences.
pub enum SpecProfileError {
    NotFound,
    InvalidFormat,
    IoError(Seq<char>),
    SerializationError(Seq<char>),
    PermissionDenied { uid: u64 },
}

/// The mathematical model of a [`CliError`].
pub enum SpecCliError {
    ProfileNotFound,
    InvalidProfileFormat,
    IoError(Seq<char>),
    SerializationError(Seq<char>),
    Other(Seq<char>),
}

impl View for ProfileError {
    type V = SpecProfileError;

    open spec fn view(&self) -> SpecProfileError {
        match self {
            ProfileError::NotFound => SpecProfileError::NotFound,
            ProfileError::InvalidFormat => SpecProfileError::InvalidFormat,
            ProfileError::IoError(p) => SpecProfileError::IoError(p@),
            ProfileError::SerializationError(p) => SpecProfileError::SerializationError(p@),
            ProfileError::PermissionDenied { uid } => SpecProfileError::PermissionDenied {
                uid: *uid,
            },
        }
    }
}

impl View for CliError {
    type V = SpecCliError;

    open spec fn view(&self) -> SpecCliError {
        match self {
            CliError::ProfileNotFound => SpecCliError::ProfileNotFound,
            CliError::InvalidProfileFormat => SpecCliError::InvalidProfileFormat,
            CliError::IoError(p) => SpecCliError::IoError(p@),
            CliError::SerializationError(p) => SpecCliError::SerializationError(p@),
            CliError::Other(m) => SpecCliError::Other(m@),
        }
    }
}

/// Whether a subsystem failure has a dedicated counterpart in [`CliError`].
pub open spec fn has_dedicated_mapping(e: SpecProfileError) -> bool {
    ||| e is NotFound
    ||| e is InvalidFormat
    ||| e is IoError
    ||| e is SerializationError
}

/// The diagnostic message of the fallback path: a full structured rendering
/// of the original error, prefixed with the subsystem's name.
pub open spec fn fallback_message(e: SpecProfileError) -> Seq<char>
    recommends
        !has_dedicated_mapping(e),
{
    match e {
        SpecProfileError::PermissionDenied { uid } => "Profile error: PermissionDenied { uid: "@
            + dec_digits(uid as nat) + " }"@,
        _ => Seq::<char>::empty(),
    }
}

/// The translator, as a total function on the models: the four expected
/// failure kinds map one-to-one with their payloads unchanged; every other
/// variant maps to the fallback with its diagnostic message.
pub open spec fn translate(e: SpecProfileError) -> SpecCliError {
    match e {
        SpecProfileError::NotFound => SpecCliError::ProfileNotFound,
        SpecProfileError::InvalidFormat => SpecCliError::InvalidProfileFormat,
        SpecProfileError::IoError(p) => SpecCliError::IoError(p),
        SpecProfileError::SerializationError(p) => SpecCliError::SerializationError(p),
        _ => SpecCliError::Other(fallback_message(e)),
    }
}

/// Exact mapping, case by case: each of the four expected failure kinds maps
/// to its dedicated counterpart, with the wrapped cause unchanged; every
/// variant without a dedicated mapping maps to the fallback, whose message is
/// its diagnostic rendering. Together the cases cover every variant, so the
/// translation is total.
pub proof fn lemma_translate_exact(e: SpecProfileError)
    ensures
        e is NotFound ==> translate(e) is ProfileNotFound,
        e is InvalidFormat ==> translate(e) is InvalidProfileFormat,
        e matches SpecProfileError::IoError(p) ==> translate(e) == SpecCliError::IoError(p),
        e matches SpecProfileError::SerializationError(p) ==> translate(e)
            == SpecCliError::SerializationError(p),
        !has_dedicated_mapping(e) ==> translate(e) == SpecCliError::Other(fallback_message(e)),
{
}

/// Determinism: the translation of a failure depends on nothing but the
/// failure itself, so equal inputs translate to equal outputs.
pub proof fn lemma_translate_deterministic(e1: SpecProfileError, e2: SpecProfileError)
    requires
        e1 == e2,
    ensures
        translate(e1) == translate(e2),
{
}

/// Fallback completeness: distinct failures without a dedicated mapping have
/// distinct, distinguishable fallback messages — the message embeds the
/// original error's full content, so nothing is lost on the fallback path.
pub proof fn lemma_fallback_distinguishes(e1: SpecProfileError, e2: SpecProfileError)
    requires
        !has_dedicated_mapping(e1),
        !has_dedicated_mapping(e2),
        e1 != e2,
    ensures
        fallback_message(e1) != fallback_message(e2),
        translate(e1) != translate(e2),
{
    match (e1, e2) {
        (
            SpecProfileError::PermissionDenied { uid: u1 },
            SpecProfileError::PermissionDenied { uid: u2 },
        ) => {
            let pre = "Profile error: PermissionDenied { uid: "@;
            let suf = " }"@;
            let d1 = dec_digits(u1 as nat);
            let d2 = dec_digits(u2 as nat);
            if fallback_message(e1) == fallback_message(e2) {
                assert(pre + d1 + suf == pre + d2 + suf);
                assert(d1.len() == d2.len());
                assert(d1 =~= (pre + d1 + suf).subrange(
                    pre.len() as int,
                    (pre.len() + d1.len()) as int,
                ));
                assert(d2 =~= (pre + d2 + suf).subrange(
                    pre.len() as int,
                    (pre.len() + d2.len()) as int,
                ));
                crate::decimal::lemma_dec_digits_injective(u1 as nat, u2 as nat);
                assert(false);
            }
        },
        _ => {
            assert(false);
        },
    }
}

/// Renders the structured content of a `PermissionDenied` failure into the
/// fallback diagnostic message.
fn render_permission_denied(uid: u64) -> (s: String)
    ensures
        s@ == fallback_message((SpecProfileError::PermissionDenied { uid })),
{
    let mut s = String::from_str("Profile error: PermissionDenied { uid: ");
    let digits = u64_to_decimal(uid);
    s.append(digits.as_str());
    s.append(" }");
    proof {
        assert(s@ =~= fallback_message(SpecProfileError::PermissionDenied { uid }));
    }
    s
}

/// `CliError::from` allocates the fallback message, and a fresh `String` is
/// not determined at the spec level by its characters alone, so the
/// translation is not presented as a spec-level function on the values
/// themselves. Its contract is the `ensures` of `from`, over the views.
impl vstd::std_specs::convert::FromSpecImpl<ProfileError> for CliError {
    open spec fn obeys_from_spec() -> bool {
        false
    }

    open spec fn from_spec(v: ProfileError) -> CliError {
        vstd::pervasive::arbitrary()
    }
}

impl From<ProfileError> for CliError {
    /// The translator: dispatches on the failure's variant, mapping each of
    /// the four expected kinds to its dedicated counterpart with the wrapped
    /// cause passed through unchanged, and every other variant to the
    /// fallback, whose message embeds the original error's full content.
    fn from(err: ProfileError) -> (r: CliError)
        ensures
            r@ == translate(err@),
            err matches ProfileError::IoError(p) ==> r == (CliError::IoError(p)),
            err matches ProfileError::SerializationError(p) ==> r == (
            CliError::SerializationError(p)),
    {
        match err {
            ProfileError::NotFound => CliError::ProfileNotFound,
            ProfileError::InvalidFormat => CliError::InvalidProfileFormat,
            ProfileError::IoError(e) => CliError::IoError(e),
            ProfileError::SerializationError(e) => CliError::SerializationError(e),
            ProfileError::PermissionDenied { uid } => CliError::Other(
                render_permission_denied(uid),
            ),
        }
    }
}

} // verus!
