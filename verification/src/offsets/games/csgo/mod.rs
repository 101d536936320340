//! A dumped module image and reads from it at module-relative or absolute
//! addresses.
pub mod netvars;
pub mod table;

use vstd::prelude::*;
use vstd::string::StringSliceAdditionalSpecFns;

use crate::offsets::findpattern::{find_pattern, pattern_search_result, spec_find_pattern};
use crate::utils::bytes::{le_value, read_u32_le};

verus! {

/// A module of the target process: its name, load address, size, and a copy
/// of its bytes.
#[derive(Debug, Clone)]
pub struct Module {
    pub name: String,
    pub base: usize,
    pub size: usize,
    pub data: Vec<u8>,
}

/// The index into the module's bytes that `offset` stands for: the offset
/// itself when it is already relative, else the offset less the base
/// (wrapping).
pub open spec fn relative_offset(base: usize, offset: usize, is_relative: bool) -> usize {
    if is_relative {
        offset
    } else {
        vstd::wrapping::usize_specs::wrapping_sub(offset, base)
    }
}

impl Module {
    /// A module named `name`, loaded at `base`, `size` bytes long, whose
    /// bytes are `data`.
    pub fn new(name: String, base: usize, size: usize, data: Vec<u8>) -> (res: Module)
        ensures
            res.name == name,
            res.base == base,
            res.size == size,
            res.data == data,
    {
        Module { name, base, size, data }
    }

    /// The first index of the module's bytes at which the signature text
    /// `pattern` occurs (see `find_pattern`).
    pub fn find_pattern(&self, pattern: &str) -> (res: Option<usize>)
        ensures
            pattern_search_result(self.data@, pattern.spec_bytes(), res),
            res == spec_find_pattern(self.data@, pattern.spec_bytes()),
    {
        find_pattern(self.data.as_slice(), pattern)
    }

    /// The little-endian `u32` at offset `o`, which is relative when
    /// `is_relative` holds and absolute otherwise. `None` unless the four
    /// bytes and at least one more lie within the module.
    pub fn get_raw_u32(&self, o: usize, is_relative: bool) -> (res: Option<u32>)
        ensures
            ({
                let r = relative_offset(self.base, o, is_relative) as int;
                match res {
                    Some(v) => r + 4 < self.data@.len() && v == le_value(
                        self.data@.subrange(r, r + 4),
                    ),
                    None => r + 4 >= self.data@.len(),
                }
            }),
    {
        let r = if is_relative {
            o
        } else {
            o.wrapping_sub(self.base)
        };
        read_u32_before_end(self.data.as_slice(), r)
    }

    /// The `len` bytes at `offset` (relative when `is_relative` holds), or
    /// `None` when they do not all lie within the module.
    pub fn get_slice(&self, offset: usize, len: usize, is_relative: bool) -> (res: Option<&[u8]>)
        ensures
            ({
                let r = relative_offset(self.base, offset, is_relative) as int;
                match res {
                    Some(s) => r + len <= self.data@.len() && s@ == self.data@.subrange(
                        r,
                        r + len,
                    ),
                    None => r + len > self.data@.len(),
                }
            }),
    {
        let r = if is_relative {
            offset
        } else {
            offset.wrapping_sub(self.base)
        };
        let data = self.data.as_slice();
        if r <= data.len() && len <= data.len() - r {
            Some(&data[r..r + len])
        } else {
            None
        }
    }

    /// The module's bytes from `offset` (relative when `is_relative` holds)
    /// to its end, or `None` when the offset lies beyond the end.
    pub fn get(&self, offset: usize, is_relative: bool) -> (res: Option<&[u8]>)
        ensures
            ({
                let r = relative_offset(self.base, offset, is_relative) as int;
                match res {
                    Some(s) => r <= self.data@.len() && s@ == self.data@.subrange(
                        r,
                        self.data@.len() as int,
                    ),
                    None => r > self.data@.len(),
                }
            }),
    {
        let r = if is_relative {
            offset
        } else {
            offset.wrapping_sub(self.base)
        };
        let data = self.data.as_slice();
        if r <= data.len() {
            Some(&data[r..data.len()])
        } else {
            None
        }
    }
}

/// The little-endian `u32` at `o` in `data`, provided the four bytes end
/// strictly before the end of `data`.
pub fn read_u32_before_end(data: &[u8], o: usize) -> (res: Option<u32>)
    ensures
        match res {
            Some(v) => o + 4 < data@.len() && v == le_value(data@.subrange(o as int, o + 4)),
            None => o + 4 >= data@.len(),
        },
{
    let n = data.len();
    if n >= 5 && o < n - 4 {
        Some(read_u32_le(data, o))
    } else {
        None
    }
}

/// The bytes `get_slice` gives are the first `len` of those `get` gives from
/// the same offset.
pub proof fn lemma_slice_is_prefix_of_rest(data: Seq<u8>, r: int, len: int)
    requires
        0 <= r,
        0 <= len,
        r + len <= data.len(),
    ensures
        data.subrange(r, r + len) == data.subrange(r, data.len() as int).take(len),
{
    assert(data.subrange(r, r + len) =~= data.subrange(r, data.len() as int).take(len));
}

} // verus!
