//! Deterministic resolution of token display metadata: deriving the
//! metadata account for a mint, parsing the fetched record, and trimming
//! the fixed-width padding of its name and symbol.

use vstd::prelude::*;
use vstd::string::StrSliceExecFns;

use crate::address::Address;

verus! {

/// Resolved display data for a token mint, trimmed of the trailing
/// zero-padding left by the fixed-width on-chain encoding.
#[derive(Debug)]
pub struct TokenMetadata {
    pub name: String,
    pub symbol: String,
}

/// Why a resolution failed. Both outcomes are local and non-fatal: the
/// caller degrades to a missing symbol instead of aborting.
#[derive(Clone, Copy, Debug, PartialEq, Eq, Structural)]
pub enum MetadataError {
    /// The account read failed or the account does not exist.
    RpcError,
    /// The account data does not parse as a metadata record.
    DeserializationError,
}

/// The metadata account that the canonical program-derived-address
/// scheme assigns to a mint, together with the fixed seed tag and the
/// metadata program's own identifier; empty when no bump byte in the
/// allowed range takes the hash off-curve, which the scheme makes
/// statistically improbable.
pub uninterp spec fn metadata_pda_of(mint: Seq<u8>) -> Option<Seq<u8>>;

/// Relies on solana_program's Pubkey::try_find_program_address over the
/// metadata program's documented seeds (the literal tag, the program
/// identifier, the mint): a pure search over bump bytes from the highest
/// downward, so the result is a function of the mint bytes alone.
#[verifier::external_body]
fn find_metadata_pda(mint: &Address) -> (r: Option<Address>)
    ensures
        r is Some <==> metadata_pda_of(mint@) is Some,
        r matches Some(a) ==> metadata_pda_of(mint@) == Some(a@),
{
    let mint_bytes = mint.to_bytes();
    let seeds: [&[u8]; 3] = [
        mpl_token_metadata::accounts::Metadata::PREFIX,
        mpl_token_metadata::ID.as_ref(),
        mint_bytes.as_ref(),
    ];
    let found = solana_program::pubkey::Pubkey::try_find_program_address(
        &seeds,
        &mpl_token_metadata::ID,
    );
    found.map(|pair| Address::new(pair.0.to_bytes()))
}

/// Derives the metadata account address for a mint. The derivation is a
/// pure function: equal mints always yield equal addresses, with no
/// network access.
pub fn derive_metadata_address(mint: &Address) -> (r: Option<Address>)
    ensures
        r is Some <==> metadata_pda_of(mint@) is Some,
        r matches Some(a) ==> metadata_pda_of(mint@) == Some(a@),
{
    find_metadata_pda(mint)
}

/// Derivation is deterministic: two mints with the same identifier bytes
/// are assigned byte-identical metadata accounts.
pub proof fn lemma_derivation_deterministic(mint_a: Seq<u8>, mint_b: Seq<u8>)
    requires
        mint_a == mint_b,
    ensures
        metadata_pda_of(mint_a) == metadata_pda_of(mint_b),
{
}

/// The name and symbol fields that the metadata program's record layout
/// assigns to the given account bytes; empty when the bytes do not parse
/// as such a record.
pub uninterp spec fn decoded_token_fields(data: Seq<u8>) -> Option<(Seq<char>, Seq<char>)>;

/// Relies on mpl_token_metadata's Metadata::from_bytes: a pure parse of
/// the record layout, so success and the extracted name and symbol are a
/// function of the account bytes alone.
#[verifier::external_body]
fn decode_metadata_record(data: &Vec<u8>) -> (r: Option<(String, String)>)
    ensures
        r is Some <==> decoded_token_fields(data@) is Some,
        r matches Some(fields) ==> decoded_token_fields(data@) == Some((fields.0@, fields.1@)),
{
    match mpl_token_metadata::accounts::Metadata::from_bytes(data.as_slice()) {
        Ok(record) => Some((record.name, record.symbol)),
        Err(_) => None,
    }
}

/// The given character sequence with every trailing zero character
/// removed, and nothing else.
pub open spec fn trim_spec(s: Seq<char>) -> Seq<char>
    decreases s.len(),
{
    if s.len() > 0 && s.last() == '\0' {
        trim_spec(s.drop_last())
    } else {
        s
    }
}

/// Removes the trailing zero characters of a fixed-width on-chain string;
/// zero characters anywhere else stay where they are.
pub fn trim_trailing_nuls(s: &str) -> (r: String)
    ensures
        r@ == trim_spec(s@),
{
    let n = s.unicode_len();
    let mut keep = n;
    proof {
        assert(s@.take(n as int) =~= s@);
    }
    while keep > 0 && s.get_char(keep - 1) == '\0'
        invariant
            keep <= n,
            n == s@.len(),
            trim_spec(s@) == trim_spec(s@.take(keep as int)),
        decreases keep,
    {
        proof {
            assert(s@.take(keep as int).last() == '\0');
            assert(s@.take(keep as int).drop_last() =~= s@.take(keep as int - 1));
        }
        keep = keep - 1;
    }
    proof {
        if keep == 0 {
            assert(s@.take(0).len() == 0);
        }
        assert(trim_spec(s@.take(keep as int)) == s@.take(keep as int));
    }
    let r = s.substring_char(0, keep).to_owned();
    proof {
        assert(s@.subrange(0, keep as int) =~= s@.take(keep as int));
    }
    r
}

/// What the trimmed form of a string is: the prefix that ends at the
/// last non-zero character. The trimmed form is a prefix of the input,
/// every character past it is the zero character, and the trimmed form
/// itself never ends in one; so trimming removes the trailing zero
/// characters, all of them, and only them.
pub proof fn lemma_trim_exact(s: Seq<char>)
    ensures
        trim_spec(s).len() <= s.len(),
        trim_spec(s) == s.take(trim_spec(s).len() as int),
        forall|i: int| trim_spec(s).len() <= i < s.len() ==> s[i] == '\0',
        trim_spec(s).len() > 0 ==> trim_spec(s).last() != '\0',
    decreases s.len(),
{
    if s.len() > 0 && s.last() == '\0' {
        lemma_trim_exact(s.drop_last());
        assert(s.drop_last() =~= s.take(s.len() - 1));
        assert(s.drop_last().take(trim_spec(s).len() as int)
            =~= s.take(trim_spec(s).len() as int));
        assert forall|i: int| trim_spec(s).len() <= i < s.len() implies s[i] == '\0' by {
            if i < s.len() - 1 {
                assert(s.drop_last()[i] == '\0');
            }
        }
    } else {
        assert(s.take(s.len() as int) =~= s);
    }
}

/// Parses fetched metadata-account bytes into trimmed display data.
/// Success is decided by the record layout alone: bytes that parse yield
/// the record's name and symbol with their trailing zero padding
/// removed, and bytes that do not parse yield a deserialization error.
pub fn parse_token_metadata(data: &Vec<u8>) -> (r: Result<TokenMetadata, MetadataError>)
    ensures
        r is Ok <==> decoded_token_fields(data@) is Some,
        r matches Ok(tm) ==> decoded_token_fields(data@) matches Some(fields)
            && tm.name@ == trim_spec(fields.0)
            && tm.symbol@ == trim_spec(fields.1),
        r matches Err(e) ==> e == MetadataError::DeserializationError,
{
    match decode_metadata_record(data) {
        Some(fields) => {
            let name = trim_trailing_nuls(fields.0.as_str());
            let symbol = trim_trailing_nuls(fields.1.as_str());
            Ok(TokenMetadata { name, symbol })
        },
        None => Err(MetadataError::DeserializationError),
    }
}

/// Turns the outcome of the remote account read into the resolution
/// result: a missing account or failed read is an error, never a default
/// record; fetched bytes are parsed and trimmed.
pub fn resolve_fetched(fetched: &Option<Vec<u8>>) -> (r: Result<TokenMetadata, MetadataError>)
    ensures
        fetched is None ==> r == Err::<TokenMetadata, MetadataError>(MetadataError::RpcError),
        fetched matches Some(data) ==> {
            &&& r is Ok <==> decoded_token_fields(data@) is Some
            &&& (r matches Ok(tm) ==> decoded_token_fields(data@) matches Some(fields)
                && tm.name@ == trim_spec(fields.0)
                && tm.symbol@ == trim_spec(fields.1))
            &&& (r matches Err(e) ==> e == MetadataError::DeserializationError)
        },
{
    match fetched {
        Some(data) => parse_token_metadata(data),
        None => Err(MetadataError::RpcError),
    }
}

} // verus!
