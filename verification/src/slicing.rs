//! Byte-range extraction from a combined diff file.
//!
//! A combined diff file packs many independent patch records back-to-back.
//! Before the patcher can consume one record, its byte range must be copied
//! out into a standalone slice. This module extracts the range, derives the
//! deterministic file name under which the slice is stored, and joins it to
//! the destination directory; the embedding application performs the actual
//! file reads and writes around these functions.

use vstd::prelude::*;
use vstd::string::StringExecFns;

use crate::PatchError;

verus! {

/// How many bytes a slice request yields: the requested length, capped by the
/// bytes remaining in the file after the offset (a read may legitimately
/// return fewer bytes than requested only when the file is shorter than
/// `offset + length`; the shortfall is kept, not padded).
pub open spec fn slice_len_spec(file_len: nat, offset: nat, length: nat) -> nat
    recommends
        offset <= file_len,
{
    if length <= file_len - offset {
        length
    } else {
        (file_len - offset) as nat
    }
}

/// The bytes a slice request yields: the range `[offset, offset + length)`,
/// truncated at the end of the file.
pub open spec fn slice_spec(data: Seq<u8>, offset: nat, length: nat) -> Seq<u8>
    recommends
        offset <= data.len(),
{
    data.subrange(offset as int, offset + slice_len_spec(data.len(), offset, length) as int)
}

/// Extracts the byte range `[offset, offset + length)` from the combined diff
/// file's contents. An offset beyond the end of the file is rejected as an
/// I/O error rather than yielding an empty slice; a length that overruns the
/// end of the file is truncated to the bytes that exist.
pub fn slice_bytes(data: &Vec<u8>, offset: u64, length: u64) -> (r: Result<Vec<u8>, PatchError>)
    ensures
        match r {
            Ok(s) => offset as nat <= data@.len() && s@ == slice_spec(
                data@,
                offset as nat,
                length as nat,
            ),
            Err(e) => offset as nat > data@.len() && e == PatchError::Io,
        },
{
    if offset > data.len() as u64 {
        return Err(PatchError::Io);
    }
    let off: usize = offset as usize;
    let avail: usize = data.len() - off;
    let take: usize = if length <= avail as u64 {
        length as usize
    } else {
        avail
    };
    let mut out: Vec<u8> = Vec::new();
    let mut i: usize = 0;
    while i < take
        invariant
            off == offset,
            off + take <= data@.len() <= usize::MAX,
            take as nat == slice_len_spec(data@.len(), offset as nat, length as nat),
            0 <= i <= take,
            out@ == data@.subrange(off as int, off + i),
        decreases take - i,
    {
        out.push(data[off + i]);
        i += 1;
        proof {
            assert(out@ =~= data@.subrange(off as int, off + i));
        }
    }
    proof {
        assert(out@ =~= slice_spec(data@, offset as nat, length as nat));
    }
    Ok(out)
}

/// The digit character for a value below ten.
pub open spec fn digit_char(d: nat) -> char {
    if d == 0 {
        '0'
    } else if d == 1 {
        '1'
    } else if d == 2 {
        '2'
    } else if d == 3 {
        '3'
    } else if d == 4 {
        '4'
    } else if d == 5 {
        '5'
    } else if d == 6 {
        '6'
    } else if d == 7 {
        '7'
    } else if d == 8 {
        '8'
    } else {
        '9'
    }
}

/// The decimal representation of `n`, most significant digit first, with no
/// leading zeros (zero itself is `"0"`).
pub open spec fn dec_rep(n: nat) -> Seq<char>
    decreases n,
{
    if n < 10 {
        seq![digit_char(n)]
    } else {
        dec_rep(n / 10).push(digit_char(n % 10))
    }
}

/// Appends the digit character for `d` to `s`.
fn push_digit(s: &mut String, d: u64)
    requires
        d < 10,
    ensures
        final(s)@ == old(s)@.push(digit_char(d as nat)),
{
    proof {
        reveal_strlit("0");
        reveal_strlit("1");
        reveal_strlit("2");
        reveal_strlit("3");
        reveal_strlit("4");
        reveal_strlit("5");
        reveal_strlit("6");
        reveal_strlit("7");
        reveal_strlit("8");
        reveal_strlit("9");
    }
    if d == 0 {
        s.append("0");
    } else if d == 1 {
        s.append("1");
    } else if d == 2 {
        s.append("2");
    } else if d == 3 {
        s.append("3");
    } else if d == 4 {
        s.append("4");
    } else if d == 5 {
        s.append("5");
    } else if d == 6 {
        s.append("6");
    } else if d == 7 {
        s.append("7");
    } else if d == 8 {
        s.append("8");
    } else {
        s.append("9");
    }
    proof {
        assert(s@ =~= old(s)@.push(digit_char(d as nat)));
    }
}

/// Appends the decimal representation of `n` to `s`.
pub fn push_decimal(s: &mut String, n: u64)
    ensures
        final(s)@ == old(s)@ + dec_rep(n as nat),
    decreases n,
{
    if n >= 10 {
        push_decimal(s, n / 10);
        push_digit(s, n % 10);
        proof {
            assert(s@ =~= old(s)@ + dec_rep(n as nat));
        }
    } else {
        push_digit(s, n);
        proof {
            assert(s@ =~= old(s)@ + dec_rep(n as nat));
        }
    }
}

/// The deterministic name of a slice's temporary file: the combined diff
/// file's base name, the offset and the requested length, joined by
/// underscores, with a `.diff` extension.
pub open spec fn sliced_name_spec(name: Seq<char>, offset: nat, length: nat) -> Seq<char> {
    name + "_"@ + dec_rep(offset) + "_"@ + dec_rep(length) + ".diff"@
}

/// Builds the temporary file name under which a slice of the combined diff
/// file is stored.
pub fn sliced_diff_file_name(diff_file_name: &str, offset: u64, length: u64) -> (r: String)
    ensures
        r@ == sliced_name_spec(diff_file_name@, offset as nat, length as nat),
{
    let mut r: String = diff_file_name.to_owned();
    r.append("_");
    push_decimal(&mut r, offset);
    r.append("_");
    push_decimal(&mut r, length);
    r.append(".diff");
    proof {
        assert(r@ =~= sliced_name_spec(diff_file_name@, offset as nat, length as nat));
    }
    r
}

/// Joins a file name to a directory with the path separator.
pub fn joined_path(dir: &str, name: &str) -> (r: String)
    ensures
        r@ == dir@ + "/"@ + name@,
{
    let mut r: String = dir.to_owned();
    r.append("/");
    r.append(name);
    proof {
        assert(r@ =~= dir@ + "/"@ + name@);
    }
    r
}

} // verus!
