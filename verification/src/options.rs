//! The options of the two requests, with their defaults and with what each
//! request does not admit.

use crate::cbor::{
    entries_view, find_key, map_get_text, text_key, KeyType, KeyView, Value, ValueView,
};
use crate::read::{as_bool, as_map, optional, read_bool, read_map};
use crate::status_code::Ctap2StatusCode;
use vstd::prelude::*;

verus! {

/// The options of a request to make a credential. An option that the request
/// does not name has its default.
#[derive(Clone, Copy, Debug, PartialEq, Eq, Structural)]
pub struct MakeCredentialOptions {
    /// Whether the credential is to be a resident one. By default it is not.
    pub rk: bool,
    /// Whether the user is to be verified. By default not.
    pub uv: bool,
}

/// The options of a request for an assertion. An option that the request
/// does not name has its default.
#[derive(Clone, Copy, Debug, PartialEq, Eq, Structural)]
pub struct GetAssertionOptions {
    /// Whether the user's presence is asked for. By default it is.
    pub up: bool,
    /// Whether the user is to be verified. By default not.
    pub uv: bool,
}

/// The truth value of an option, or its default where the option is absent.
pub open spec fn or_default(option: Option<bool>, default: bool) -> bool {
    match option {
        Some(b) => b,
        None => default,
    }
}

/// The options in a map of a request to make a credential. `rk`, `up` and
/// `uv` are looked at in this order and each that is there has to be a
/// boolean. The user's presence cannot be waived: `up` set to false is an
/// invalid option, found only after `rk` and `up` were read; `up` set to true
/// says nothing.
pub open spec fn decode_make_credential_options(v: ValueView) -> Result<
    MakeCredentialOptions,
    Ctap2StatusCode,
> {
    match as_map(v) {
        Err(e) => Err(e),
        Ok(m) => match optional(m, text_key("rk"@), |x: ValueView| as_bool(x)) {
            Err(e) => Err(e),
            Ok(rk) => match optional(m, text_key("up"@), |x: ValueView| as_bool(x)) {
                Err(e) => Err(e),
                Ok(up) => if up == Some(false) {
                    Err(Ctap2StatusCode::CTAP2_ERR_INVALID_OPTION)
                } else {
                    match optional(m, text_key("uv"@), |x: ValueView| as_bool(x)) {
                        Err(e) => Err(e),
                        Ok(uv) => Ok(
                            MakeCredentialOptions {
                                rk: or_default(rk, false),
                                uv: or_default(uv, false),
                            },
                        ),
                    }
                },
            },
        },
    }
}

/// The options in a map of a request for an assertion. `rk` is looked at
/// first: a request for an assertion does not admit it, whatever it is set
/// to, but where it is no boolean, that is the error. Then `up` and `uv`,
/// each of which has to be a boolean where it is there.
pub open spec fn decode_get_assertion_options(v: ValueView) -> Result<
    GetAssertionOptions,
    Ctap2StatusCode,
> {
    match as_map(v) {
        Err(e) => Err(e),
        Ok(m) => match optional(m, text_key("rk"@), |x: ValueView| as_bool(x)) {
            Err(e) => Err(e),
            Ok(Some(_)) => Err(Ctap2StatusCode::CTAP2_ERR_INVALID_OPTION),
            Ok(None) => match optional(m, text_key("up"@), |x: ValueView| as_bool(x)) {
                Err(e) => Err(e),
                Ok(up) => match optional(m, text_key("uv"@), |x: ValueView| as_bool(x)) {
                    Err(e) => Err(e),
                    Ok(uv) => Ok(
                        GetAssertionOptions { up: or_default(up, true), uv: or_default(uv, false) },
                    ),
                },
            },
        },
    }
}

/// The boolean under `name` in a map's entries, where there is an entry.
pub fn read_optional_bool(entries: &Vec<(KeyType, Value)>, name: &str) -> (r: Result<
    Option<bool>,
    Ctap2StatusCode,
>)
    ensures
        r == optional(entries_view(entries@), text_key(name@), |x: ValueView| as_bool(x)),
{
    match map_get_text(entries, name) {
        Some(options_entry) => Ok(Some(read_bool(options_entry)?)),
        None => Ok(None),
    }
}

impl MakeCredentialOptions {
    /// Reads the options, see [`decode_make_credential_options`].
    pub fn decode(cbor_value: &Value) -> (r: Result<MakeCredentialOptions, Ctap2StatusCode>)
        ensures
            r == decode_make_credential_options(cbor_value@),
    {
        let options_map = read_map(cbor_value)?;
        let rk = match read_optional_bool(options_map, "rk")? {
            Some(value) => value,
            None => false,
        };
        if let Some(up) = read_optional_bool(options_map, "up")? {
            if !up {
                return Err(Ctap2StatusCode::CTAP2_ERR_INVALID_OPTION);
            }
        }
        let uv = match read_optional_bool(options_map, "uv")? {
            Some(value) => value,
            None => false,
        };
        Ok(MakeCredentialOptions { rk, uv })
    }
}

impl GetAssertionOptions {
    /// Reads the options, see [`decode_get_assertion_options`].
    pub fn decode(cbor_value: &Value) -> (r: Result<GetAssertionOptions, Ctap2StatusCode>)
        ensures
            r == decode_get_assertion_options(cbor_value@),
    {
        let options_map = read_map(cbor_value)?;
        if let Some(_) = read_optional_bool(options_map, "rk")? {
            return Err(Ctap2StatusCode::CTAP2_ERR_INVALID_OPTION);
        }
        let up = match read_optional_bool(options_map, "up")? {
            Some(value) => value,
            None => true,
        };
        let uv = match read_optional_bool(options_map, "uv")? {
            Some(value) => value,
            None => false,
        };
        Ok(GetAssertionOptions { up, uv })
    }
}

/// In a request to make a credential, an entry for the user's presence
/// decides once `rk` was read: set to false it is an invalid option, and
/// where it is no boolean it is of an unexpected type, not an invalid option.
pub proof fn presence_in_make_credential_options(
    m: Seq<(KeyView, ValueView)>,
    presence: ValueView,
)
    requires
        optional(m, text_key("rk"@), |x: ValueView| as_bool(x)) is Ok,
        find_key(m, text_key("up"@)) == Some(presence),
        as_bool(presence) != Ok::<_, Ctap2StatusCode>(true),
    ensures
        decode_make_credential_options(ValueView::Mapping(m)) == Err::<MakeCredentialOptions, _>(
            if as_bool(presence) is Ok {
                Ctap2StatusCode::CTAP2_ERR_INVALID_OPTION
            } else {
                Ctap2StatusCode::CTAP2_ERR_CBOR_UNEXPECTED_TYPE
            },
        ),
{
}

/// In a request for an assertion, an entry for a resident key decides before
/// anything else is read: it is an invalid option whatever boolean it is set
/// to, and where it is no boolean it is of an unexpected type.
pub proof fn resident_key_in_get_assertion_options(
    m: Seq<(KeyView, ValueView)>,
    resident_key: ValueView,
)
    requires
        find_key(m, text_key("rk"@)) == Some(resident_key),
    ensures
        decode_get_assertion_options(ValueView::Mapping(m)) == Err::<GetAssertionOptions, _>(
            if as_bool(resident_key) is Ok {
                Ctap2StatusCode::CTAP2_ERR_INVALID_OPTION
            } else {
                Ctap2StatusCode::CTAP2_ERR_CBOR_UNEXPECTED_TYPE
            },
        ),
{
}

} // verus!
