//! Persisted state between runs: the current theme mode as a small token,
//! and a digest of the wallpaper so an unchanged wallpaper can be detected.
//! Reading and writing the files is the embedding program's concern.

use vstd::prelude::*;
use sha2::Digest;
use crate::strutil::{spec_trim, string_push, trim};

verus! {

/// What the digest function returns for given bytes; the result depends on
/// the bytes alone.
pub uninterp spec fn sha256_of(bytes: Seq<u8>) -> Seq<u8>;

/// Relies on `sha2::Sha256::digest`: a 32-byte digest that depends on the
/// input bytes alone.
#[verifier::external_body]
fn sha256_digest(bytes: &Vec<u8>) -> (r: Vec<u8>)
    ensures
        r@ == sha256_of(bytes@),
        r@.len() == 32,
{
    sha2::Sha256::digest(bytes.as_slice()).to_vec()
}

/// The lower-case hex digit character for a value below sixteen.
pub open spec fn spec_hex_char(d: int) -> char {
    if d == 0 { '0' }
    else if d == 1 { '1' }
    else if d == 2 { '2' }
    else if d == 3 { '3' }
    else if d == 4 { '4' }
    else if d == 5 { '5' }
    else if d == 6 { '6' }
    else if d == 7 { '7' }
    else if d == 8 { '8' }
    else if d == 9 { '9' }
    else if d == 10 { 'a' }
    else if d == 11 { 'b' }
    else if d == 12 { 'c' }
    else if d == 13 { 'd' }
    else if d == 14 { 'e' }
    else { 'f' }
}

/// Lower-case hex encoding of a byte sequence, two digits per byte.
pub open spec fn spec_hex_bytes(bytes: Seq<u8>) -> Seq<char>
    decreases bytes.len(),
{
    if bytes.len() == 0 {
        Seq::empty()
    } else {
        seq![
            spec_hex_char(bytes.first() as int / 16),
            spec_hex_char(bytes.first() as int % 16),
        ] + spec_hex_bytes(bytes.drop_first())
    }
}

/// The executable lower-case hex digit character.
fn hex_char(d: u8) -> (c: char)
    requires
        d < 16,
    ensures
        c == spec_hex_char(d as int),
{
    match d {
        0 => '0',
        1 => '1',
        2 => '2',
        3 => '3',
        4 => '4',
        5 => '5',
        6 => '6',
        7 => '7',
        8 => '8',
        9 => '9',
        10 => 'a',
        11 => 'b',
        12 => 'c',
        13 => 'd',
        14 => 'e',
        _ => 'f',
    }
}

/// Encode bytes as lower-case hex, two digits per byte.
pub fn to_hex_lower(bytes: &Vec<u8>) -> (r: String)
    ensures
        r@ == spec_hex_bytes(bytes@),
{
    let n: usize = bytes.len();
    let mut out = String::new();
    let mut i: usize = 0;
    proof {
        assert(bytes@.skip(0) =~= bytes@);
    }
    while i < n
        invariant
            n == bytes@.len(),
            i <= n,
            spec_hex_bytes(bytes@) == out@ + spec_hex_bytes(bytes@.skip(i as int)),
        decreases n - i,
    {
        let b = bytes[i];
        string_push(&mut out, hex_char(b / 16));
        string_push(&mut out, hex_char(b % 16));
        proof {
            assert(bytes@.skip(i as int).first() == bytes@[i as int]);
            assert(bytes@.skip(i as int).drop_first() =~= bytes@.skip(i + 1));
        }
        i = i + 1;
    }
    proof {
        assert(bytes@.skip(n as int) =~= Seq::<u8>::empty());
        assert(out@ =~= spec_hex_bytes(bytes@));
    }
    out
}

/// The persisted-state directory and the meaning of its two files.
pub struct Cache {
    pub cache_dir: String,
}

impl Cache {
    /// State under the given directory. The embedding program creates the
    /// directory before any state is written.
    pub fn new(cache_dir: String) -> (r: Cache)
        ensures
            r.cache_dir@ == cache_dir@,
    {
        Cache { cache_dir }
    }

    /// Path of the wallpaper digest file.
    pub fn hash_file_path(&self) -> (r: String)
        ensures
            r@ == self.cache_dir@ + "/wallpaper.hash"@,
    {
        let mut out = self.cache_dir.clone();
        out.append("/wallpaper.hash");
        out
    }

    /// Path of the theme state file.
    pub fn state_file_path(&self) -> (r: String)
        ensures
            r@ == self.cache_dir@ + "/theme_state"@,
    {
        let mut out = self.cache_dir.clone();
        out.append("/theme_state");
        out
    }

    /// Hex digest of the wallpaper file's bytes.
    pub fn wallpaper_hash(&self, contents: &Vec<u8>) -> (r: String)
        ensures
            r@ == spec_hex_bytes(sha256_of(contents@)),
    {
        let digest = sha256_digest(contents);
        to_hex_lower(&digest)
    }

    /// Whether the wallpaper changed since the digest was last stored:
    /// changed when no digest is stored, or when the stored digest (blanks
    /// trimmed) differs from the current one.
    pub fn wallpaper_changed_given(&self, current_hash: &str, cached: Option<&str>) -> (r: bool)
        ensures
            match cached {
                Some(c) => r == (current_hash@ != spec_trim(c@)),
                None => r,
            },
    {
        match cached {
            Some(c) => {
                let trimmed = trim(c);
                !crate::strutil::str_eq(current_hash, trimmed.as_str())
            },
            None => true,
        }
    }

    /// The persisted mode token: the state file's content with blanks
    /// trimmed, or `dark` when no state was ever written.
    pub fn theme_state_from(&self, content: Option<&str>) -> (r: String)
        ensures
            match content {
                Some(c) => r@ == spec_trim(c@),
                None => r@ == "dark"@,
            },
    {
        match content {
            Some(c) => trim(c),
            None => String::from_str("dark"),
        }
    }
}

} // verus!
