//! Hex dump of file contents. The caller reads the file (or reports that it
//! is missing) and hands the bytes in; the rows come from the `hexdump`
//! crate and are joined here, one per line.

use vstd::prelude::*;
use vstd::string::StringExecFns;

use crate::errors::MercyError;
use crate::text::str_eq;

verus! {

/// The contents of the file to dump, as the caller found them.
pub enum FileData {
    /// The file was read in full.
    Loaded(Vec<u8>),
    /// The path does not exist.
    Missing,
}

/// The rows that `hexdump::hexdump_iter` yields for `bytes`: one row per
/// 16-byte chunk and one summary row.
pub uninterp spec fn hexdump_lines_of(bytes: Seq<u8>) -> Seq<Seq<char>>;

/// Relies on `hexdump::hexdump_iter`: the rows depend on the bytes alone;
/// there is one row per 16-byte chunk, plus a single summary row. The crate
/// builds each row in a fixed 64-byte buffer and writes offsets with
/// `{:08x}`, so an offset of 2^36 or more overflows the buffer and the
/// crate panics; such inputs are excluded here.
#[verifier::external_body]
fn hexdump_lines(bytes: &Vec<u8>) -> (r: Vec<String>)
    requires
        bytes@.len() < 0x10_0000_0000,
    ensures
        r.deep_view() == hexdump_lines_of(bytes@),
        r@.len() == (bytes@.len() + 15) / 16 + 1,
{
    hexdump::hexdump_iter(bytes).map(|line| line.to_string()).collect()
}

/// The rows of `lines` concatenated, each followed by a newline.
pub open spec fn join_lines(lines: Seq<Seq<char>>) -> Seq<char>
    decreases lines.len(),
{
    if lines.len() == 0 {
        Seq::empty()
    } else {
        join_lines(lines.drop_last()) + lines.last() + seq!['\n']
    }
}

fn join_with_newlines(lines: &Vec<String>) -> (r: String)
    ensures
        r@ == join_lines(lines.deep_view()),
{
    let mut out = String::new();
    let mut i: usize = 0;
    proof {
        reveal_strlit("\n");
    }
    while i < lines.len()
        invariant
            i <= lines@.len(),
            lines.deep_view().len() == lines@.len(),
            out@ == join_lines(lines.deep_view().take(i as int)),
        decreases lines@.len() - i,
    {
        out.append(lines[i].as_str());
        out.append("\n");
        proof {
            reveal_strlit("\n");
            assert("\n"@ =~= seq!['\n']);
            assert(lines.deep_view().take(i as int + 1).drop_last() =~= lines.deep_view().take(
                i as int,
            ));
            assert(lines.deep_view().take(i as int + 1).last() == lines[i as int]@);
            assert(out@ =~= join_lines(lines.deep_view().take(i as int + 1)));
        }
        i += 1;
    }
    proof {
        assert(lines.deep_view().take(lines@.len() as int) =~= lines.deep_view());
    }
    out
}

/// Whether the hex call needs the file's contents: only `"hex_dump"` does.
/// The caller can ask before touching the file system.
pub fn mercy_hex_plan(mercy_call: &str) -> (r: bool)
    ensures
        r <==> mercy_call@ == "hex_dump"@,
{
    str_eq(mercy_call, "hex_dump")
}

/// Hex dump dispatch: `"hex_dump"` is the only recognized call. A missing
/// file is reported as `NotFound`, never by panicking; contents too large
/// for the renderer's row offsets (2^36 bytes or more) as `IoError`.
pub fn mercy_hex(mercy_call: &str, mercy_file: &FileData) -> (r: Result<String, MercyError>)
    ensures
        mercy_call@ == "hex_dump"@ ==> (match *mercy_file {
            FileData::Loaded(bytes) => (if bytes@.len() < 0x10_0000_0000 {
                r matches Ok(s) && s@ == join_lines(hexdump_lines_of(bytes@))
            } else {
                r == Err::<String, MercyError>(MercyError::IoError)
            }),
            FileData::Missing => r == Err::<String, MercyError>(MercyError::NotFound),
        }),
        mercy_call@ != "hex_dump"@ ==> r == Err::<String, MercyError>(
            MercyError::UnsupportedOperation,
        ),
{
    if str_eq(mercy_call, "hex_dump") {
        match mercy_file {
            FileData::Loaded(bytes) => {
                if (bytes.len() as u64) < 0x10_0000_0000u64 {
                    let lines = hexdump_lines(bytes);
                    Ok(join_with_newlines(&lines))
                } else {
                    Err(MercyError::IoError)
                }
            },
            FileData::Missing => Err(MercyError::NotFound),
        }
    } else {
        Err(MercyError::UnsupportedOperation)
    }
}

} // verus!
