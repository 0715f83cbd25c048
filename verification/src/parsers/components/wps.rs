//! The decoder of the WPS information that a vendor element carries.

use crate::frame::components::security::wpa_oui;
use crate::frame::components::wps::{
    bytes_to_category, category_of, WpsInformation, WpsInformationView, WpsSetupState,
};
use crate::wire::{be_u16, read_be_u16};
use vstd::prelude::*;
use vstd::slice::slice_subrange;
use vstd::string::StringExecFns;
use vstd::utf8::{decode_utf8, valid_utf8};

verus! {

pub const WPS_LENGTH: &'static str = "Invalid WPS data length";

pub const WPS_ELEMENT_LENGTH: &'static str = "Invalid WPS data length for element";

pub const WPS_SETUP_STATE: &'static str = "Invalid WPS Setup State";

pub const INVALID_UTF8: &'static str = "Invalid UTF-8 string";

/// `String::from_utf8`: the text that `data` encodes, exactly when `data` is valid UTF-8.
#[verifier::external_body]
fn utf8_text(data: &[u8]) -> (r: Option<String>)
    ensures
        r is Some <==> valid_utf8(data@),
        r matches Some(s) ==> s@ == decode_utf8(data@),
{
    String::from_utf8(data.to_vec()).ok()
}

/// The text that a byte string encodes, if it is valid UTF-8.
pub open spec fn text_of(data: Seq<u8>) -> Result<Seq<char>, &'static str> {
    if valid_utf8(data) {
        Ok(decode_utf8(data))
    } else {
        Err(INVALID_UTF8)
    }
}

/// Reads a text from `data`, which must be valid UTF-8.
pub fn parse_string_from_bytes(data: &[u8]) -> (r: Result<String, &'static str>)
    ensures
        match r {
            Ok(s) => text_of(data@) == Ok::<Seq<char>, &'static str>(s@),
            Err(e) => text_of(data@) == Err::<Seq<char>, &'static str>(e),
        },
{
    match utf8_text(data) {
        Some(s) => Ok(s),
        None => Err(INVALID_UTF8),
    }
}

/// The three parts of a primary device type of at least eight bytes: category, vendor
/// prefix with type, subcategory.
pub fn parse_device_type_data(device_type_data: &[u8]) -> (r: Option<(&[u8], &[u8], &[u8])>)
    ensures
        match r {
            Some((category, oui, subcategory)) => device_type_data@.len() >= 8 && category@
                == device_type_data@.subrange(0, 2) && oui@ == device_type_data@.subrange(2, 6)
                && subcategory@ == device_type_data@.subrange(6, 8),
            None => device_type_data@.len() < 8,
        },
{
    if device_type_data.len() >= 8 {
        Some(
            (
                slice_subrange(device_type_data, 0, 2),
                slice_subrange(device_type_data, 2, 6),
                slice_subrange(device_type_data, 6, 8),
            ),
        )
    } else {
        None
    }
}

/// The name of the primary device type that `body` announces, given the name held so far.
///
/// A body under eight bytes clears the name. A body whose bytes 2 to 5 are not the WPS
/// prefix `00 50 f2 04` leaves it. Otherwise it is the name of the category that bytes 0, 1
/// and bytes 6, 7 give, or empty where they give none.
pub open spec fn device_type_name(current: Seq<char>, body: Seq<u8>) -> Seq<char> {
    if body.len() < 8 {
        Seq::empty()
    } else if body.subrange(2, 6) != wpa_oui().push(4) {
        current
    } else {
        match category_of(be_u16(body, 0), be_u16(body, 6)) {
            Some(c) => c.label_spec()@,
            None => Seq::empty(),
        }
    }
}

/// The information after one element of kind `kind` with body `body`.
pub open spec fn wps_apply(acc: WpsInformationView, kind: u16, body: Seq<u8>) -> Result<
    WpsInformationView,
    &'static str,
> {
    if kind == 0x1057 {
        if body.len() == 0 {
            Err(WPS_SETUP_STATE)
        } else {
            match WpsSetupState::of(body[0]) {
                Some(state) => Ok(WpsInformationView { setup_state: state, ..acc }),
                None => Err(WPS_SETUP_STATE),
            }
        }
    } else if kind == 0x1021 {
        match text_of(body) {
            Ok(t) => Ok(WpsInformationView { manufacturer: t, ..acc }),
            Err(e) => Err(e),
        }
    } else if kind == 0x1023 {
        match text_of(body) {
            Ok(t) => Ok(WpsInformationView { model: t, ..acc }),
            Err(e) => Err(e),
        }
    } else if kind == 0x1024 {
        match text_of(body) {
            Ok(t) => Ok(WpsInformationView { model_number: t, ..acc }),
            Err(e) => Err(e),
        }
    } else if kind == 0x1042 {
        match text_of(body) {
            Ok(t) => Ok(WpsInformationView { serial_number: t, ..acc }),
            Err(e) => Err(e),
        }
    } else if kind == 0x1054 {
        Ok(
            WpsInformationView {
                primary_device_type: device_type_name(acc.primary_device_type, body),
                ..acc
            },
        )
    } else if kind == 0x1011 {
        match text_of(body) {
            Ok(t) => Ok(WpsInformationView { device_name: t, ..acc }),
            Err(e) => Err(e),
        }
    } else {
        Ok(acc)
    }
}

/// What the elements of `data` from `offset` on make of `acc`. Each element is a kind of
/// two bytes, a length of two bytes, both big-endian, and a body of that length.
pub open spec fn wps_walk(data: Seq<u8>, offset: int, acc: WpsInformationView) -> Result<
    WpsInformationView,
    &'static str,
>
    decreases data.len() - offset,
{
    if offset < 0 || offset >= data.len() {
        Ok(acc)
    } else if offset + 4 > data.len() {
        Err(WPS_LENGTH)
    } else {
        let kind = be_u16(data, offset);
        let length = be_u16(data, offset + 2) as int;
        let start = offset + 4;
        if start + length > data.len() {
            Err(WPS_ELEMENT_LENGTH)
        } else {
            match wps_apply(acc, kind, data.subrange(start, start + length)) {
                Err(e) => Err(e),
                Ok(next) => wps_walk(data, start + length, next),
            }
        }
    }
}

/// What the body of a WPS vendor element, after the vendor prefix, stands for.
pub open spec fn wps_information_of(data: Seq<u8>) -> Result<WpsInformationView, &'static str> {
    wps_walk(data, 0, WpsInformationView::empty())
}

/// Whether `data` holds the WPS prefix `00 50 f2 04`.
fn is_wps_prefix(data: &[u8]) -> (b: bool)
    requires
        data@.len() == 4,
    ensures
        b == (data@ == wpa_oui().push(4)),
{
    let b = data[0] == 0x00 && data[1] == 0x50 && data[2] == 0xf2 && data[3] == 0x04;
    proof {
        if b {
            assert(data@ =~= wpa_oui().push(4));
        }
    }
    b
}

/// Stores one element in `info`.
fn store_wps_element(info: &mut WpsInformation, kind: u16, body: &[u8]) -> (r: Result<
    (),
    &'static str,
>)
    ensures
        match r {
            Ok(_) => wps_apply(old(info)@, kind, body@) == Ok::<WpsInformationView, &'static str>(
                final(info)@,
            ),
            Err(e) => wps_apply(old(info)@, kind, body@) == Err::<WpsInformationView, &'static str>(
                e,
            ),
        },
{
    match kind {
        0x1057 => {
            if body.len() == 0 {
                return Err(WPS_SETUP_STATE);
            }
            match WpsSetupState::from_code(body[0]) {
                Some(state) => {
                    info.setup_state = state;
                },
                None => {
                    return Err(WPS_SETUP_STATE);
                },
            }
        },
        0x1021 => {
            info.manufacturer = parse_string_from_bytes(body)?;
        },
        0x1023 => {
            info.model = parse_string_from_bytes(body)?;
        },
        0x1024 => {
            info.model_number = parse_string_from_bytes(body)?;
        },
        0x1042 => {
            info.serial_number = parse_string_from_bytes(body)?;
        },
        0x1054 => {
            match parse_device_type_data(body) {
                Some((category, oui, subcategory)) => {
                    if is_wps_prefix(oui) {
                        match bytes_to_category(category, subcategory) {
                            Some(cat) => {
                                info.primary_device_type = String::from_str(cat.label());
                            },
                            None => {
                                info.primary_device_type = String::new();
                            },
                        }
                    }
                },
                None => {
                    info.primary_device_type = String::new();
                },
            }
        },
        0x1011 => {
            info.device_name = parse_string_from_bytes(body)?;
        },
        _ => {},
    }
    Ok(())
}

/// Decodes the body of a WPS vendor element, after the vendor prefix.
pub fn parse_wps_information(data: &[u8]) -> (r: Result<WpsInformation, &'static str>)
    ensures
        crate::parsers::components::security::decoded(r, wps_information_of(data@)),
{
    let mut wps_info = WpsInformation::default();
    let mut offset: usize = 0;
    while offset < data.len()
        invariant
            offset <= data@.len(),
            wps_information_of(data@) == wps_walk(data@, offset as int, wps_info@),
        decreases data@.len() - offset,
    {
        if data.len() - offset < 4 {
            return Err(WPS_LENGTH);
        }
        let element_type = read_be_u16(data, offset);
        let element_length = read_be_u16(data, offset + 2) as usize;
        offset += 4;
        if data.len() - offset < element_length {
            return Err(WPS_ELEMENT_LENGTH);
        }
        let body = slice_subrange(data, offset, offset + element_length);
        match store_wps_element(&mut wps_info, element_type, body) {
            Ok(_) => {},
            Err(e) => {
                return Err(e);
            },
        }
        offset += element_length;
    }
    Ok(wps_info)
}

} // verus!
