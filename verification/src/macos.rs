use vstd::prelude::*;

use crate::error::SecurityError;

verus! {

/// Whose certificate trust settings are read or changed.
#[derive(Clone, Copy, Debug, PartialEq, Eq, Structural)]
pub enum TrustSettingsDomain {
    User,
    Admin,
    System,
}

/// The TLS trust setting recorded for a certificate.
#[derive(Clone, Copy, Debug, PartialEq, Eq, Structural)]
pub enum CertificateTrustSetting {
    Invalid,
    TrustRoot,
    TrustAsRoot,
    Deny,
    Unspecified,
}

/// A right or environment entry of an authorization request: its name, and
/// either bytes, a text, or neither.
pub struct AuthorizationItem {
    pub name: String,
    pub data: Option<Vec<u8>>,
    pub text: Option<String>,
}

/// How an authorization item is added to the native item set.
pub enum AuthorizationEntry {
    /// A named item carrying bytes.
    Data { name: String, data: Vec<u8> },
    /// A named item carrying text.
    Text { name: String, text: String },
    /// A bare right.
    Right { name: String },
}

/// The entry for an item: bytes take precedence over text; an item with
/// neither is a bare right.
pub open spec fn authorization_entry(item: AuthorizationItem) -> AuthorizationEntry {
    match item.data {
        Some(data) => AuthorizationEntry::Data { name: item.name, data },
        None => match item.text {
            Some(text) => AuthorizationEntry::Text { name: item.name, text },
            None => AuthorizationEntry::Right { name: item.name },
        },
    }
}

/// The entries of an authorization item set, one per item and in order; no
/// items give no set.
pub fn authorization_items(items: Option<Vec<AuthorizationItem>>) -> (entries: Option<Vec<AuthorizationEntry>>)
    ensures
        match items {
            None => entries is None,
            Some(items) => entries matches Some(entries)
                && entries@ == items@.map_values(|item: AuthorizationItem| authorization_entry(item)),
        },
        items matches Some(items) ==> entries matches Some(entries) && entries@.len() == items@.len()
            && forall|i: int| 0 <= i < items@.len() ==> #[trigger] entries@[i] == (match items@[i].data {
                Some(data) => AuthorizationEntry::Data { name: items@[i].name, data },
                None => match items@[i].text {
                    Some(text) => AuthorizationEntry::Text { name: items@[i].name, text },
                    None => AuthorizationEntry::Right { name: items@[i].name },
                },
            }),
{
    match items {
        None => None,
        Some(items) => {
            let ghost all = items@;
            let mut entries: Vec<AuthorizationEntry> = Vec::new();
            for item in it: items
                invariant
                    it.seq() == all,
                    entries@ == all.take(it.index() as int).map_values(|item: AuthorizationItem| authorization_entry(item)),
            {
                let ghost before = entries@;
                let entry = match item.data {
                    Some(data) => AuthorizationEntry::Data { name: item.name, data },
                    None => match item.text {
                        Some(text) => AuthorizationEntry::Text { name: item.name, text },
                        None => AuthorizationEntry::Right { name: item.name },
                    },
                };
                entries.push(entry);
                proof {
                    let k = it.index() as int;
                    assert(all.take(k + 1) =~= all.take(k).push(all[k]));
                    assert(all.take(k + 1).map_values(|item: AuthorizationItem| authorization_entry(item))
                        =~= before.push(authorization_entry(all[k])));
                }
            }
            assert(all.take(all.len() as int) =~= all);
            Some(entries)
        },
    }
}

/// An authorization item keeps its name and its payload: an item with bytes
/// becomes a data entry with exactly those bytes (any text is ignored, and
/// empty bytes are bytes too); an item with text and no bytes becomes a text
/// entry with that text; an item with neither becomes a bare right.
pub proof fn law_authorization_entry_keeps_payload(item: AuthorizationItem)
    ensures
        item.data matches Some(data) ==> authorization_entry(item)
            == (AuthorizationEntry::Data { name: item.name, data }),
        item.data is None ==> (item.text matches Some(text) ==> authorization_entry(item)
            == (AuthorizationEntry::Text { name: item.name, text })),
        item.data is None && item.text is None ==> authorization_entry(item)
            == (AuthorizationEntry::Right { name: item.name }),
{
}

/// The length of an authorization external form, in bytes.
pub const EXTERNAL_FORM_LENGTH: usize = 32;

/// The C characters with the same bits as `bytes`.
pub open spec fn as_c_chars(bytes: Seq<u8>) -> Seq<i8> {
    bytes.map_values(|b: u8| b as i8)
}

/// The bytes with the same bits as the C characters `chars`.
pub open spec fn as_bytes(chars: Seq<i8>) -> Seq<u8> {
    chars.map_values(|c: i8| c as u8)
}

/// The external form carried by `data`, which must be exactly
/// [`EXTERNAL_FORM_LENGTH`] bytes long; each byte becomes the C character
/// with the same bits.
pub fn external_form_from_bytes(data: &[u8]) -> (result: Result<[i8; 32], SecurityError>)
    ensures
        result is Ok <==> data@.len() == EXTERNAL_FORM_LENGTH,
        result matches Ok(form) ==> form@ == as_c_chars(data@),
        result matches Ok(form) ==> forall|i: int| 0 <= i < 32 ==> #[trigger] form@[i] == data@[i] as i8,
        result matches Err(e) ==> e == SecurityError::ExternalFormLength(data@.len() as usize),
{
    if data.len() != EXTERNAL_FORM_LENGTH {
        return Err(SecurityError::ExternalFormLength(data.len()));
    }
    let mut form = [0i8; 32];
    for i in 0..32
        invariant
            data@.len() == 32,
            form@.len() == 32,
            forall|j: int| 0 <= j < i ==> #[trigger] form@[j] == data@[j] as i8,
    {
        form[i] = data[i] as i8;
    }
    assert(form@ =~= as_c_chars(data@));
    Ok(form)
}

/// The bytes of an external form; each C character becomes the byte with the
/// same bits.
pub fn external_form_to_bytes(form: &[i8; 32]) -> (bytes: Vec<u8>)
    ensures
        bytes@ == as_bytes(form@),
        bytes@.len() == 32,
        forall|i: int| 0 <= i < 32 ==> #[trigger] bytes@[i] == form@[i] as u8,
{
    let mut bytes: Vec<u8> = Vec::new();
    for i in 0..32
        invariant
            form@.len() == 32,
            bytes@.len() == i,
            forall|j: int| 0 <= j < i ==> #[trigger] bytes@[j] == form@[j] as u8,
    {
        bytes.push(form[i] as u8);
    }
    assert(bytes@ =~= as_bytes(form@));
    bytes
}

/// Handing an external form to JavaScript and back loses nothing: the bytes
/// of a form read as a form give the same form, and bytes read as a form
/// give back the same bytes.
pub proof fn law_external_form_round_trip(form: Seq<i8>, data: Seq<u8>)
    ensures
        as_c_chars(as_bytes(form)) == form,
        as_bytes(as_c_chars(data)) == data,
{
    assert forall|i: int| 0 <= i < form.len() implies #[trigger] as_c_chars(as_bytes(form))[i] == form[i] by {
        let c: i8 = form[i];
        assert((c as u8) as i8 == c) by (bit_vector);
    }
    assert(as_c_chars(as_bytes(form)) =~= form);
    assert forall|i: int| 0 <= i < data.len() implies #[trigger] as_bytes(as_c_chars(data))[i] == data[i] by {
        let b: u8 = data[i];
        assert((b as i8) as u8 == b) by (bit_vector);
    }
    assert(as_bytes(as_c_chars(data)) =~= data);
}

} // verus!
