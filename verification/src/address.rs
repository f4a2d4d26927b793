//! Recipient-address normalization: split at the right-most `@` and encode
//! the domain segment into its ASCII (punycode) form.
use vstd::prelude::*;
use vstd::string::StrSliceExecFns;
use vstd::string::StringExecFns;

use crate::MailError;
use crate::chars::rfind_char;

verus! {

/// What `idna::domain_to_ascii_strict` returns for a domain: its ASCII
/// (punycode) form, or nothing when the strict UTS 46 transform rejects it.
pub uninterp spec fn idna_ascii(domain: Seq<char>) -> Option<Seq<char>>;

/// Relies on `idna::domain_to_ascii_strict`: the strict UTS 46 to-ASCII
/// transform, a function of the input domain alone; a successful result
/// holds only ASCII characters.
#[verifier::external_body]
fn domain_to_ascii(domain: &str) -> (r: Option<String>)
    ensures
        (r is Some) == (idna_ascii(domain@) is Some),
        r matches Some(d) ==> d@ == idna_ascii(domain@)->0 && (forall|i: int|
            0 <= i < d@.len() ==> (#[trigger] d@[i]) as int <= 127),
{
    idna::domain_to_ascii_strict(domain).ok()
}

/// A recipient address whose domain has been brought to ASCII form.
pub struct NormalizedAddress {
    /// Everything left of the right-most `@` of the original address.
    pub local_part: String,
    /// The ASCII encoding of everything right of that `@`.
    pub ascii_domain: String,
}

impl NormalizedAddress {
    /// The domain segment holds only ASCII characters.
    pub open spec fn wf(self) -> bool {
        forall|i: int|
            0 <= i < self.ascii_domain@.len() ==> (#[trigger] self.ascii_domain@[i]) as int <= 127
    }

    /// The reassembled address, `localPart@asciiDomain`.
    pub open spec fn full_view(self) -> Seq<char> {
        self.local_part@ + seq!['@'] + self.ascii_domain@
    }

    /// Reassembles the address as `localPart@asciiDomain`.
    pub fn full_address(&self) -> (r: String)
        ensures
            r@ == self.full_view(),
    {
        proof {
            reveal_strlit("@");
        }
        let mut out = self.local_part.clone();
        out.append("@");
        out.append(self.ascii_domain.as_str());
        proof {
            assert(out@ =~= self.full_view());
        }
        out
    }
}

/// What normalization returns for an address: the split at the right-most
/// `@` with the domain brought to ASCII, or the error owed for the input.
pub open spec fn normalize_spec(addr: Seq<char>) -> Result<(Seq<char>, Seq<char>), MailError> {
    match rfind_char(addr, '@') {
        Option::None => Result::Err(MailError::InvalidAddress),
        Option::Some(i) => match idna_ascii(addr.skip(i + 1)) {
            Option::None => Result::Err(MailError::DomainEncoding),
            Option::Some(d) => Result::Ok((addr.take(i), d)),
        },
    }
}

/// Splits the address at its right-most `@` and encodes the domain segment
/// with the strict IDNA to-ASCII transform. Succeeds exactly when an `@` is
/// present and the transform accepts the domain.
pub fn normalize(address: &str) -> (r: Result<NormalizedAddress, MailError>)
    ensures
        match r {
            Ok(na) => {
                &&& normalize_spec(address@) matches Ok(p)
                &&& na.local_part@ == normalize_spec(address@)->Ok_0.0
                &&& na.ascii_domain@ == normalize_spec(address@)->Ok_0.1
                &&& na.wf()
            },
            Err(e) => normalize_spec(address@) == Result::<(Seq<char>, Seq<char>), MailError>::Err(
                e,
            ),
        },
{
    let n = address.unicode_len();
    let at = crate::chars::str_rfind(address, '@');
    match at {
        None => Err(MailError::InvalidAddress),
        Some(i) => {
            let local = address.substring_char(0, i);
            let domain = address.substring_char(i + 1, n);
            proof {
                assert(address@.subrange(0, i as int) =~= address@.take(i as int));
                assert(address@.subrange(i + 1, n as int) =~= address@.skip(i + 1));
            }
            match domain_to_ascii(domain) {
                None => Err(MailError::DomainEncoding),
                Some(d) => Ok(
                    NormalizedAddress { local_part: local.to_owned(), ascii_domain: d },
                ),
            }
        },
    }
}

/// Law: normalization succeeds exactly when the address has an `@` and
/// the strict IDNA transform accepts everything right of the last one;
/// without an `@` the address is always rejected as invalid.
pub proof fn lemma_normalize_iff(addr: Seq<char>)
    ensures
        (normalize_spec(addr) is Ok) <==> (rfind_char(addr, '@') matches Some(i) && idna_ascii(
            addr.skip(i + 1),
        ) is Some),
        rfind_char(addr, '@') is None ==> normalize_spec(addr) == Result::<
            (Seq<char>, Seq<char>),
            MailError,
        >::Err(MailError::InvalidAddress),
        (rfind_char(addr, '@') matches Some(i) && idna_ascii(addr.skip(i + 1)) is None)
            ==> normalize_spec(addr) == Result::<(Seq<char>, Seq<char>), MailError>::Err(
            MailError::DomainEncoding,
        ),
{
}

} // verus!
