//! The address of an instance, brought into the form that every request
//! target starts with.

use vstd::prelude::*;
use vstd::string::*;

verus! {

/// The scheme that an address gets when it names none.
pub open spec fn default_scheme() -> Seq<char> {
    seq!['h', 't', 't', 'p', 's', ':', '/', '/']
}

/// Whether an address begins with `http`, and so already names its scheme.
pub open spec fn has_scheme(address: Seq<char>) -> bool {
    &&& address.len() >= 4
    &&& address[0] == 'h'
    &&& address[1] == 't'
    &&& address[2] == 't'
    &&& address[3] == 'p'
}

/// The address with `https://` in front of it, unless it names its scheme.
pub open spec fn with_scheme(address: Seq<char>) -> Seq<char> {
    if has_scheme(address) {
        address
    } else {
        default_scheme() + address
    }
}

/// Whether an address ends with `/`.
pub open spec fn ends_with_slash(address: Seq<char>) -> bool {
    address.len() > 0 && address.last() == '/'
}

/// The address without its last character, if that is a `/`.
pub open spec fn without_trailing_slash(address: Seq<char>) -> Seq<char> {
    if ends_with_slash(address) {
        address.drop_last()
    } else {
        address
    }
}

/// The normal form of an instance address: a scheme in front, and one
/// trailing `/` fewer.
pub open spec fn normalized(address: Seq<char>) -> Seq<char> {
    without_trailing_slash(with_scheme(address))
}

/// Whether `address` begins with `http`.
pub fn names_scheme(address: &str) -> (found: bool)
    ensures
        found == has_scheme(address@),
{
    let length: usize = address.unicode_len();
    length >= 4 && address.get_char(0) == 'h' && address.get_char(1) == 't' && address.get_char(2)
        == 't' && address.get_char(3) == 'p'
}

/// Brings an instance address into its normal form.
pub fn normalize(address: &str) -> (instance: String)
    ensures
        instance@ == normalized(address@),
        has_scheme(address@) ==> instance@ == without_trailing_slash(address@),
        !has_scheme(address@) ==> instance@ == without_trailing_slash(default_scheme() + address@),
{
    let schemed: String = if names_scheme(address) {
        address.to_owned()
    } else {
        proof {
            reveal_strlit("https://");
            assert("https://"@ =~= default_scheme());
        }
        String::from_str("https://").concat(address)
    };
    let length: usize = schemed.as_str().unicode_len();
    if length > 0 && schemed.as_str().get_char(length - 1) == '/' {
        schemed.as_str().substring_char(0, length - 1).to_owned()
    } else {
        schemed
    }
}

/// Whether an address ends with `//`.
pub open spec fn ends_with_two_slashes(address: Seq<char>) -> bool {
    address.len() >= 2 && address[address.len() - 1] == '/' && address[address.len() - 2] == '/'
}

/// An address that names no scheme gets `https://` in front of it: the
/// normal form of a non-empty one is `https://` and then the address, less
/// one trailing `/`.
pub proof fn law_scheme_is_prepended(address: Seq<char>)
    requires
        !has_scheme(address),
    ensures
        normalized(address) == without_trailing_slash(default_scheme() + address),
        address.len() > 0 ==> normalized(address) == default_scheme() + without_trailing_slash(
            address,
        ),
{
    if address.len() > 0 {
        let whole = default_scheme() + address;
        assert(whole.last() == address.last());
        if ends_with_slash(address) {
            assert(whole.drop_last() =~= default_scheme() + address.drop_last());
        }
    }
}

/// An address that names its scheme is left as it is, but for one trailing
/// `/`.
pub proof fn law_schemed_address_is_kept(address: Seq<char>)
    requires
        has_scheme(address),
    ensures
        normalized(address) == without_trailing_slash(address),
        !ends_with_slash(address) ==> normalized(address) == address,
{
}

/// A normal form names its scheme, so normalizing it again can only take one
/// more `/` off its end.
pub proof fn law_normal_form_has_scheme(address: Seq<char>)
    ensures
        has_scheme(normalized(address)),
        normalized(normalized(address)) == without_trailing_slash(normalized(address)),
{
    let schemed = with_scheme(address);
    assert(has_scheme(schemed));
    if ends_with_slash(schemed) {
        assert(schemed.len() >= 5);
        assert(has_scheme(schemed.drop_last()));
    }
}

/// Normalizing is idempotent: a normal form is its own normal form. This
/// holds of every address that, with its scheme, does not end in `//`; one
/// that does keeps a `/` at its end, which a second pass takes off.
pub proof fn law_normalize_is_idempotent(address: Seq<char>)
    requires
        !ends_with_two_slashes(with_scheme(address)),
    ensures
        normalized(normalized(address)) == normalized(address),
{
    law_normal_form_has_scheme(address);
}

/// And of no other: where the address with its scheme ends in `//`, the
/// second pass changes the text.
pub proof fn law_second_pass_takes_second_slash(address: Seq<char>)
    requires
        ends_with_two_slashes(with_scheme(address)),
    ensures
        normalized(normalized(address)) == normalized(address).drop_last(),
        normalized(normalized(address)) != normalized(address),
{
    law_normal_form_has_scheme(address);
}

} // verus!
