//! The library's own model of the device-side values a key request carries.
//!
//! The driver converts these into the device client's types at the point of
//! the call; the library's logic and contracts speak only of these.

use vstd::prelude::*;

verus! {

/// Largest object identifier the device can hold.
pub const MAX_ID: u64 = 0xffff;

/// Byte length of an object label on the device (fixed-size encoding).
pub const LABEL_SIZE: usize = 40;

/// Asymmetric key algorithms the device offers for generated keys.
#[derive(Clone, Copy, Debug, PartialEq, Eq, Structural)]
pub enum Algorithm {
    Rsa4096,
    EcP384,
}

/// Capability sets a generated key may carry.
#[derive(Clone, Copy, Debug, PartialEq, Eq, Structural)]
pub enum Capability {
    All,
}

impl Capability {
    /// The set of all capabilities.
    pub fn all() -> (r: Capability)
        ensures
            r == Capability::All,
    {
        Capability::All
    }
}

/// Security domains an object may belong to.
#[derive(Clone, Copy, Debug, PartialEq, Eq, Structural)]
#[allow(non_camel_case_types)]
pub enum Domain {
    /// The first security domain alone.
    DOM1,
    /// Every security domain.
    All,
}

impl Domain {
    /// Membership in every security domain.
    pub fn all() -> (r: Domain)
        ensures
            r == Domain::All,
    {
        Domain::All
    }
}

/// Symmetric wrap-key algorithms.
#[derive(Clone, Copy, Debug, PartialEq, Eq, Structural)]
pub enum WrapAlgorithm {
    Aes256Ccm,
}

/// Authentication-key algorithms.
#[derive(Clone, Copy, Debug, PartialEq, Eq, Structural)]
pub enum AuthAlgorithm {
    YubicoAes,
}

/// Kinds of object the ceremonies export under a wrap key.
#[derive(Clone, Copy, Debug, PartialEq, Eq, Structural)]
pub enum ObjectKind {
    AsymmetricKey,
    AuthenticationKey,
}

/// An object label: text whose UTF-8 encoding takes at most
/// [`LABEL_SIZE`] bytes.
#[derive(Clone, Debug, PartialEq, Eq)]
pub struct Label {
    text: String,
}

impl Label {
    /// The label's well-formedness invariant: it fits the device's
    /// fixed-size label encoding.
    pub open spec fn wf(&self) -> bool {
        vstd::utf8::encode_utf8(self@).len() <= LABEL_SIZE
    }

    /// The characters the label holds.
    pub closed spec fn view(&self) -> Seq<char> {
        self.text@
    }

    /// Builds a label from text; fails if its encoding exceeds the
    /// device's label size.
    pub fn from_text(text: &str) -> (r: Result<Label, crate::HsmError>)
        ensures
            vstd::utf8::encode_utf8(text@).len() <= LABEL_SIZE ==> (r matches Ok(l) && l@ == text@
                && l.wf()),
            vstd::utf8::encode_utf8(text@).len() > LABEL_SIZE ==> r === Err(
                crate::HsmError::BadLabel,
            ),
    {
        let encoded: &[u8] = text.as_bytes();
        if encoded.len() <= LABEL_SIZE {
            Ok(Label { text: text.to_owned() })
        } else {
            Err(crate::HsmError::BadLabel)
        }
    }

    /// A copy of the label carrying the same text.
    pub fn duplicate(&self) -> (r: Label)
        requires
            self.wf(),
        ensures
            r@ == self@,
            r.wf(),
    {
        match Label::from_text(self.text.as_str()) {
            Ok(l) => l,
            Err(_) => vstd::pervasive::unreached(),
        }
    }

    /// The label's text, for the driver to hand to the device.
    pub fn as_text(&self) -> (r: &str)
        ensures
            r@ == self@,
    {
        self.text.as_str()
    }
}

} // verus!
