//! Account identities: a binary key and its Base58Check display string.
use vstd::prelude::*;

verus! {

/// What Base58Check decoding (version byte kept, checksum verified and
/// stripped) makes of a string, or `None` where the string is not such an
/// encoding.
pub uninterp spec fn base58check_decoded(s: Seq<char>) -> Option<Seq<u8>>;

/// The Base58Check encoding of a payload (checksum appended).
pub uninterp spec fn base58check_encoded(b: Seq<u8>) -> Seq<char>;

/// Relies on bs58's `decode(..).with_check(None).into_vec()`: decodes the
/// string, verifies the trailing four-byte checksum and returns the payload
/// before it; any malformed input gives an error.
#[verifier::external_body]
fn decode_check(s: &str) -> (r: Option<Vec<u8>>)
    ensures
        match r {
            Some(v) => base58check_decoded(s@) == Some(v@),
            None => base58check_decoded(s@) is None,
        },
{
    bs58::decode(s).with_check(None).into_vec().ok()
}

/// Relies on bs58's `encode(..).with_check().into_string()`: the payload
/// followed by its checksum, in Base58; decoding that string with the check
/// gives the payload back.
#[verifier::external_body]
fn encode_check(b: &[u8]) -> (r: String)
    ensures
        r@ == base58check_encoded(b@),
        base58check_decoded(r@) == Some(b@),
{
    bs58::encode(b).with_check().into_string()
}

/// Why an identity string was refused.
#[derive(Clone, Copy, Debug, PartialEq, Eq, Structural)]
pub enum IdentityError {
    /// The string is not a well-formed Base58Check encoding.
    InvalidIdentity,
}

/// The mathematical value of an identity: its binary form and its display form.
pub struct IdentityView {
    pub raw: Seq<u8>,
    pub display: Seq<char>,
}

/// An account identity. Both forms are held; comparisons use the binary one.
#[derive(Debug)]
pub struct AccountIdentity {
    raw: Vec<u8>,
    display: String,
}

/// What parsing a display string gives, over the decoding it relies on.
pub open spec fn parse_spec(s: Seq<char>) -> Result<IdentityView, IdentityError> {
    match base58check_decoded(s) {
        Some(b) => Ok(IdentityView { raw: b, display: base58check_encoded(b) }),
        None => Err(IdentityError::InvalidIdentity),
    }
}

impl View for AccountIdentity {
    type V = IdentityView;

    closed spec fn view(&self) -> IdentityView {
        IdentityView { raw: self.raw@, display: self.display@ }
    }
}

impl AccountIdentity {
    /// The display form is the encoding of the binary form, and decodes back to it.
    pub closed spec fn wf(&self) -> bool {
        &&& self.display@ == base58check_encoded(self.raw@)
        &&& base58check_decoded(self.display@) == Some(self.raw@)
    }

    /// Reads an identity from its display string.
    pub fn parse(s: &str) -> (r: Result<AccountIdentity, IdentityError>)
        ensures
            match r {
                Ok(id) => id.wf() && parse_spec(s@) == Ok::<IdentityView, IdentityError>(id@),
                Err(e) => parse_spec(s@) == Err::<IdentityView, IdentityError>(e),
            },
    {
        match decode_check(s) {
            Some(raw) => {
                let display = encode_check(raw.as_slice());
                Ok(AccountIdentity { raw, display })
            },
            None => Err(IdentityError::InvalidIdentity),
        }
    }

    /// Builds the identity whose binary form is `raw`.
    pub fn from_bytes(raw: Vec<u8>) -> (r: AccountIdentity)
        ensures
            r.wf(),
            r@.raw == raw@,
            r@.display == base58check_encoded(raw@),
    {
        let display = encode_check(raw.as_slice());
        AccountIdentity { raw, display }
    }

    /// The display string.
    pub fn to_display(&self) -> (r: String)
        ensures
            r@ == self@.display,
    {
        self.display.clone()
    }

    /// The binary form.
    pub fn as_bytes(&self) -> (r: &[u8])
        ensures
            r@ == self@.raw,
    {
        self.raw.as_slice()
    }

    /// Whether `raw` is this identity's binary form.
    pub fn matches(&self, raw: &[u8]) -> (r: bool)
        ensures
            r == (self@.raw == raw@),
    {
        bytes_equal(self.raw.as_slice(), raw)
    }

    /// Whether two identities are the same account.
    pub fn same_account(&self, other: &AccountIdentity) -> (r: bool)
        ensures
            r == (self@.raw == other@.raw),
    {
        bytes_equal(self.raw.as_slice(), other.raw.as_slice())
    }

    /// A copy of this identity.
    pub fn duplicate(&self) -> (r: AccountIdentity)
        ensures
            r@ == self@,
            self.wf() ==> r.wf(),
    {
        let raw = self.raw.clone();
        proof {
            assert(raw@ =~= self.raw@);
        }
        AccountIdentity { raw, display: self.display.clone() }
    }
}

/// Byte-wise equality of two slices.
pub fn bytes_equal(a: &[u8], b: &[u8]) -> (r: bool)
    ensures
        r == (a@ == b@),
{
    if a.len() != b.len() {
        return false;
    }
    let mut i: usize = 0;
    while i < a.len()
        invariant
            a@.len() == b@.len(),
            0 <= i <= a@.len(),
            forall|j: int| 0 <= j < i ==> a@[j] == b@[j],
        decreases a@.len() - i,
    {
        if a[i] != b[i] {
            return false;
        }
        i += 1;
    }
    assert(a@ =~= b@);
    true
}

/// Displaying an identity that parsing gave and parsing the display again
/// gives the same identity: `parse(to_display(parse(s))) == parse(s)`.
pub proof fn lemma_parse_display_round_trip(s: Seq<char>, id: AccountIdentity)
    requires
        id.wf(),
        parse_spec(s) == Ok::<IdentityView, IdentityError>(id@),
    ensures
        parse_spec(id@.display) == parse_spec(s),
{
}

} // verus!
