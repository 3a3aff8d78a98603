//! Relative byte-string paths: extension swapping, destination paths and the
//! reserved temp suffix.
//!
//! A job's paths are relative to the `from` and `to` directories and handled
//! as byte strings, the form in which rules match them. Swapping the
//! extension follows the usual path convention: the extension is what follows
//! the last dot of the final path component, where a dot leading that
//! component (a hidden file) starts no extension.

use vstd::prelude::*;
use crate::config::Transcode;
use crate::config::spec_extension_bytes;

verus! {

/// The position of the last occurrence of `c` in `p`, if any.
pub open spec fn last_pos(p: Seq<u8>, c: u8) -> Option<int>
    decreases p.len(),
{
    if p.len() == 0 {
        None
    } else if p.last() == c {
        Some(p.len() - 1)
    } else {
        last_pos(p.drop_last(), c)
    }
}

/// Where the final path component starts: right after the last slash, or at
/// the start of the path.
pub open spec fn name_start(p: Seq<u8>) -> int {
    match last_pos(p, '/' as u8) {
        Some(s) => s + 1,
        None => 0,
    }
}

/// The dot that starts `p`'s extension: the last dot, provided it lies in the
/// final component and does not lead it.
pub open spec fn ext_dot(p: Seq<u8>) -> Option<int> {
    match last_pos(p, '.' as u8) {
        Some(d) => if d > name_start(p) {
            Some(d)
        } else {
            None
        },
        None => None,
    }
}

/// `p` with its extension replaced by `ext`: the old extension and its dot
/// are cut off, and a dot plus `ext` appended — only the dot-cut for an empty
/// `ext`, and a plain append when `p` has no extension.
pub open spec fn spec_with_extension(p: Seq<u8>, ext: Seq<u8>) -> Seq<u8> {
    let stem = match ext_dot(p) {
        Some(d) => p.take(d),
        None => p,
    };
    if ext.len() == 0 {
        stem
    } else {
        stem + seq!['.' as u8] + ext
    }
}

/// The relative destination path of a job: the source's relative path with
/// the extension the target format fixes; the two copying targets keep the
/// source's extension.
pub open spec fn spec_dest_rel(rel: Seq<u8>, t: Transcode) -> Seq<u8> {
    match t {
        Transcode::Copy => rel,
        Transcode::CopyAudio => rel,
        _ => spec_with_extension(rel, spec_extension_bytes(t)),
    }
}

/// The reserved temp suffix, as extension bytes.
pub open spec fn temp_suffix() -> Seq<u8> {
    seq!['t' as u8, 'm' as u8, 'p' as u8]
}

/// The temp path a job writes before its atomic rename: the destination path
/// with the reserved temp extension.
pub open spec fn spec_temp_rel(dest: Seq<u8>) -> Seq<u8> {
    spec_with_extension(dest, temp_suffix())
}

/// The position of the last occurrence of `c` in `p`, if any.
pub fn last_index_of(p: &Vec<u8>, c: u8) -> (r: Option<usize>)
    ensures
        r matches Some(ix) ==> ix < p@.len() && last_pos(p@, c) == Some(ix as int),
        r is None ==> last_pos(p@, c) is None,
{
    proof {
        assert(p@.take(p@.len() as int) =~= p@);
    }
    let mut i: usize = p.len();
    while i > 0
        invariant
            0 <= i <= p@.len(),
            last_pos(p@, c) == last_pos(p@.take(i as int), c),
        decreases i,
    {
        if p[i - 1] == c {
            return Some(i - 1);
        }
        proof {
            assert(p@.take(i as int).drop_last() =~= p@.take(i as int - 1));
        }
        i -= 1;
    }
    None
}

/// Copies a byte string.
pub fn clone_bytes(p: &Vec<u8>) -> (r: Vec<u8>)
    ensures
        r@ == p@,
{
    let mut r: Vec<u8> = Vec::new();
    let mut i: usize = 0;
    while i < p.len()
        invariant
            0 <= i <= p@.len(),
            r@ =~= p@.take(i as int),
        decreases p@.len() - i,
    {
        r.push(p[i]);
        i += 1;
    }
    proof {
        assert(p@.take(p@.len() as int) =~= p@);
    }
    r
}

/// Replaces `p`'s extension with `ext`, as [`spec_with_extension`] says.
pub fn with_extension(p: &Vec<u8>, ext: &Vec<u8>) -> (r: Vec<u8>)
    ensures
        r@ == spec_with_extension(p@, ext@),
{
    let plen = p.len();
    let slash = last_index_of(p, '/' as u8);
    let dot = last_index_of(p, '.' as u8);
    let ns: usize = match slash {
        Some(s) => s + 1,
        None => 0,
    };
    let cut: usize = match dot {
        Some(d) => if d > ns {
            d
        } else {
            plen
        },
        None => plen,
    };
    proof {
        assert(cut as int == match ext_dot(p@) {
            Some(d) => d,
            None => p@.len() as int,
        });
    }
    let mut r: Vec<u8> = Vec::new();
    let mut i: usize = 0;
    while i < cut
        invariant
            0 <= i <= cut <= p@.len(),
            r@ =~= p@.take(i as int),
        decreases cut - i,
    {
        r.push(p[i]);
        i += 1;
    }
    if ext.len() > 0 {
        r.push('.' as u8);
        let mut j: usize = 0;
        while j < ext.len()
            invariant
                0 <= j <= ext@.len(),
                cut as int == match ext_dot(p@) {
                    Some(d) => d,
                    None => p@.len() as int,
                },
                r@ =~= p@.take(cut as int) + seq!['.' as u8] + ext@.take(j as int),
            decreases ext@.len() - j,
        {
            r.push(ext[j]);
            j += 1;
        }
        proof {
            assert(ext@.take(ext@.len() as int) =~= ext@);
            assert(r@ =~= spec_with_extension(p@, ext@));
        }
    } else {
        proof {
            assert(r@ =~= spec_with_extension(p@, ext@));
        }
    }
    r
}

/// The relative destination path for converting `rel` to target `t`.
pub fn dest_rel_path(rel: &Vec<u8>, t: &Transcode) -> (r: Vec<u8>)
    ensures
        r@ == spec_dest_rel(rel@, *t),
{
    match t {
        Transcode::Copy => clone_bytes(rel),
        Transcode::CopyAudio => clone_bytes(rel),
        _ => {
            let e = t.extension_bytes();
            with_extension(rel, &e)
        },
    }
}

/// The temp path belonging to a destination path.
pub fn temp_rel_path(dest: &Vec<u8>) -> (r: Vec<u8>)
    ensures
        r@ == spec_temp_rel(dest@),
{
    let mut suffix: Vec<u8> = Vec::new();
    suffix.push('t' as u8);
    suffix.push('m' as u8);
    suffix.push('p' as u8);
    proof {
        assert(suffix@ =~= temp_suffix());
    }
    with_extension(dest, &suffix)
}

} // verus!
