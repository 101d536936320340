//! Turning a signature into an address: find its pattern in the module's
//! bytes, follow its chain of pointers, then apply its adjustments.
use vstd::prelude::*;
use vstd::string::StringSliceAdditionalSpecFns;
use vstd::wrapping::usize_specs::{wrapping_add, wrapping_add_signed, wrapping_sub};

use super::findpattern::{find_pattern, spec_find_pattern};
use super::hconfig::Signature;
use crate::utils::bytes::{le_value, read_u32_le, read_u64_le};
use crate::offsets::games::csgo::{read_u32_before_end, Module};
use crate::utils::text::str_eq;

verus! {

/// Why a signature could not be resolved.
#[derive(Debug, Clone, Copy, PartialEq, Eq, Structural)]
pub enum ScanError {
    /// The module's bytes could not be had.
    ModuleNotFound,
    /// The pattern does not occur in the module (or is not a valid pattern).
    PatternNotFound,
    /// A pointer to follow lies outside the module.
    OffsetOutOfBounds,
    /// The relative displacement lies outside the module.
    RIPRelativeFailed,
}

/// The instruction set of a process or system.
#[derive(Debug, Clone, Copy, PartialEq, Eq, Structural)]
pub enum Arch {
    /// x86 with the given pointer width in bits.
    X86(u8),
    AArch64,
    Unknown,
}

/// Whether a process runs as a 32-bit x86 process on a 64-bit system, so
/// that its pointers are four bytes wide.
pub open spec fn spec_is_wow64(proc_arch: Arch, sys_arch: Arch) -> bool {
    match proc_arch {
        Arch::X86(32) => match sys_arch {
            Arch::AArch64 => true,
            Arch::X86(64) => true,
            _ => false,
        },
        _ => false,
    }
}

/// Whether pointers in a process of `proc_arch` on `sys_arch` are 32-bit
/// ones on a 64-bit system.
pub fn is_wow64(proc_arch: Arch, sys_arch: Arch) -> (res: bool)
    ensures
        res == spec_is_wow64(proc_arch, sys_arch),
{
    match proc_arch {
        Arch::AArch64 => false,
        Arch::X86(bits) => {
            if bits == 32 {
                match sys_arch {
                    Arch::AArch64 => true,
                    Arch::X86(sys_bits) => sys_bits == 64,
                    Arch::Unknown => false,
                }
            } else {
                false
            }
        },
        Arch::Unknown => false,
    }
}

/// The width in bytes of a pointer stored in the module.
pub open spec fn pointer_width(wow64: bool) -> int {
    if wow64 {
        4
    } else {
        8
    }
}

/// Follows `offsets` from `addr`: for each entry, the pointer stored at the
/// address plus the entry (wrapping) is read, and less the module base
/// (wrapping) becomes the next address.
pub open spec fn spec_follow_offsets(
    data: Seq<u8>,
    base: usize,
    addr: usize,
    offsets: Seq<isize>,
    wow64: bool,
) -> Result<usize, ScanError>
    decreases offsets.len(),
{
    if offsets.len() == 0 {
        Ok(addr)
    } else {
        let pos = wrapping_add_signed(addr, offsets[0]);
        let w = pointer_width(wow64);
        if pos + w > data.len() {
            Err(ScanError::OffsetOutOfBounds)
        } else {
            let raw = (le_value(data.subrange(pos as int, pos + w)) as u64) as usize;
            spec_follow_offsets(data, base, wrapping_sub(raw, base), offsets.drop_first(), wow64)
        }
    }
}

/// Following a chain of offsets composes: following `s` and then `t` is
/// following `s` first and then `t` from the address it gives; an error in
/// `s` is the error of the whole chain.
pub proof fn lemma_follow_offsets_compose(
    data: Seq<u8>,
    base: usize,
    addr: usize,
    s: Seq<isize>,
    t: Seq<isize>,
    wow64: bool,
)
    ensures
        spec_follow_offsets(data, base, addr, s + t, wow64) == match spec_follow_offsets(
            data,
            base,
            addr,
            s,
            wow64,
        ) {
            Ok(a) => spec_follow_offsets(data, base, a, t, wow64),
            Err(e) => Err(e),
        },
    decreases s.len(),
{
    if s.len() == 0 {
        assert(s + t =~= t);
    } else {
        assert((s + t)[0] == s[0]);
        assert((s + t).drop_first() =~= s.drop_first() + t);
        let pos = wrapping_add_signed(addr, s[0]);
        let w = pointer_width(wow64);
        if pos + w <= data.len() {
            let raw = (le_value(data.subrange(pos as int, pos + w)) as u64) as usize;
            lemma_follow_offsets_compose(data, base, wrapping_sub(raw, base), s.drop_first(), t, wow64);
        }
    }
}

/// One step of a chain: the pointer stored at the address plus the offset,
/// less the module base, when it lies inside the module.
pub proof fn lemma_follow_one_offset(data: Seq<u8>, base: usize, addr: usize, o: isize, wow64: bool)
    ensures
        spec_follow_offsets(data, base, addr, seq![o], wow64) == ({
            let pos = wrapping_add_signed(addr, o);
            let w = pointer_width(wow64);
            if pos + w > data.len() {
                Err(ScanError::OffsetOutOfBounds)
            } else {
                Ok(wrapping_sub((le_value(data.subrange(pos as int, pos + w)) as u64) as usize, base))
            }
        }),
{
    reveal_with_fuel(spec_follow_offsets, 2);
    assert(seq![o].drop_first() =~= Seq::<isize>::empty());
}

/// Applies the relative displacement: the `u32` stored at `addr` plus
/// `rip_offset` (which must end strictly before the end of the module) is
/// added to that address together with its own four bytes.
pub open spec fn spec_apply_rip(data: Seq<u8>, addr: usize, rip_offset: isize) -> Result<
    usize,
    ScanError,
> {
    let a = wrapping_add_signed(addr, rip_offset);
    if a + 4 >= data.len() {
        Err(ScanError::RIPRelativeFailed)
    } else {
        let rip = le_value(data.subrange(a as int, a + 4)) as usize;
        Ok(wrapping_add(wrapping_add(a, rip), 4))
    }
}

/// The address a signature resolves to, given where its pattern was found.
pub open spec fn spec_resolve_from(
    data: Seq<u8>,
    base: usize,
    found: Option<usize>,
    offsets: Seq<isize>,
    rip_relative: bool,
    rip_offset: isize,
    extra: isize,
    relative: bool,
    wow64: bool,
) -> Result<usize, ScanError> {
    match found {
        None => Err(ScanError::PatternNotFound),
        Some(start) => match spec_follow_offsets(data, base, start, offsets, wow64) {
            Err(e) => Err(e),
            Ok(a1) => {
                let a2 = if rip_relative {
                    spec_apply_rip(data, a1, rip_offset)
                } else {
                    Ok(a1)
                };
                match a2 {
                    Err(e) => Err(e),
                    Ok(a3) => {
                        let a4 = wrapping_add_signed(a3, extra);
                        if relative {
                            Ok(a4)
                        } else {
                            Ok(wrapping_add(a4, base))
                        }
                    },
                }
            },
        },
    }
}

/// The address `sig` resolves to in the module whose bytes are `data` and
/// whose load address is `base`.
pub open spec fn spec_resolve_signature(data: Seq<u8>, base: usize, sig: Signature, wow64: bool) -> Result<
    usize,
    ScanError,
> {
    spec_resolve_from(
        data,
        base,
        spec_find_pattern(data, vstd::utf8::encode_utf8(sig.pattern@)),
        sig.offsets@,
        sig.rip_relative,
        sig.rip_offset,
        sig.extra,
        sig.relative,
        wow64,
    )
}

fn follow_offsets(data: &[u8], base: usize, start: usize, offsets: &[isize], wow64: bool) -> (res:
    Result<usize, ScanError>)
    ensures
        res == spec_follow_offsets(data@, base, start, offsets@, wow64),
{
    let mut addr = start;
    let mut i: usize = 0;
    assert(offsets@.skip(0) =~= offsets@);
    while i < offsets.len()
        invariant
            0 <= i <= offsets@.len(),
            spec_follow_offsets(data@, base, start, offsets@, wow64) == spec_follow_offsets(
                data@,
                base,
                addr,
                offsets@.skip(i as int),
                wow64,
            ),
        decreases offsets@.len() - i,
    {
        let pos = addr.wrapping_add_signed(offsets[i]);
        assert(offsets@.skip(i as int)[0] == offsets@[i as int]);
        assert(offsets@.skip(i as int).drop_first() =~= offsets@.skip(i + 1));
        let n = data.len();
        let raw: usize = if wow64 {
            if n < 4 || pos > n - 4 {
                return Err(ScanError::OffsetOutOfBounds);
            }
            read_u32_le(data, pos) as usize
        } else {
            if n < 8 || pos > n - 8 {
                return Err(ScanError::OffsetOutOfBounds);
            }
            read_u64_le(data, pos) as usize
        };
        addr = raw.wrapping_sub(base);
        i = i + 1;
    }
    assert(offsets@.skip(i as int) =~= Seq::<isize>::empty());
    Ok(addr)
}

/// Resolves `sig` against the bytes `module_bytes` of a module loaded at
/// `base`: finds the pattern, follows the pointer offsets (four-byte
/// pointers when `wow64`, else eight), applies the relative displacement if
/// asked, adds `extra`, and adds the base unless the result is to stay
/// relative. Arithmetic on addresses wraps.
pub fn resolve_signature(module_bytes: &[u8], base: usize, sig: &Signature, wow64: bool) -> (res:
    Result<usize, ScanError>)
    ensures
        res == spec_resolve_signature(module_bytes@, base, *sig, wow64),
{
    let found = find_pattern(module_bytes, sig.pattern.as_str());
    let start = match found {
        None => {
            return Err(ScanError::PatternNotFound);
        },
        Some(s) => s,
    };
    let mut addr = match follow_offsets(module_bytes, base, start, sig.offsets.as_slice(), wow64) {
        Err(e) => {
            return Err(e);
        },
        Ok(a) => a,
    };
    if sig.rip_relative {
        addr = addr.wrapping_add_signed(sig.rip_offset);
        let rip = match read_u32_before_end(module_bytes, addr) {
            None => {
                return Err(ScanError::RIPRelativeFailed);
            },
            Some(r) => r,
        };
        addr = addr.wrapping_add(rip as usize).wrapping_add(4);
    }
    addr = addr.wrapping_add_signed(sig.extra);
    if !sig.relative {
        addr = addr.wrapping_add(base);
    }
    Ok(addr)
}

/// The index of the first module in `mods` named `name`.
pub open spec fn module_index(mods: Seq<Module>, name: Seq<char>) -> Option<int>
    decreases mods.len(),
{
    if mods.len() == 0 {
        None
    } else if mods[0].name@ == name {
        Some(0)
    } else {
        match module_index(mods.drop_first(), name) {
            Some(i) => Some(i + 1),
            None => None,
        }
    }
}

pub proof fn lemma_module_index_range(mods: Seq<Module>, name: Seq<char>)
    ensures
        module_index(mods, name) matches Some(i) ==> 0 <= i < mods.len() && mods[i].name@ == name
            && forall|j: int| 0 <= j < i ==> mods[j].name@ != name,
        module_index(mods, name) is None ==> forall|j: int| 0 <= j < mods.len() ==> mods[j].name@ != name,
    decreases mods.len(),
{
    if mods.len() > 0 && mods[0].name@ != name {
        lemma_module_index_range(mods.drop_first(), name);
        assert forall|j: int| 0 < j < mods.len() implies mods[j] == mods.drop_first()[j - 1] by {}
    }
}

/// No two modules share a name.
pub open spec fn names_unique(mods: Seq<Module>) -> bool {
    forall|i: int, j: int| 0 <= i < j < mods.len() ==> mods[i].name@ != mods[j].name@
}

/// The module images dumped so far, one per name, against which signatures
/// are resolved.
#[derive(Debug)]
pub struct Scanner {
    modules: Vec<Module>,
}

impl Scanner {
    /// The modules held, in the order they were first added.
    pub closed spec fn modules(&self) -> Seq<Module> {
        self.modules@
    }

    /// Each name is held at most once.
    pub closed spec fn wf(&self) -> bool {
        names_unique(self.modules@)
    }

    /// A scanner holding no module yet.
    pub fn init() -> (res: Scanner)
        ensures
            res.wf(),
            res.modules() == Seq::<Module>::empty(),
    {
        Scanner { modules: Vec::new() }
    }

    /// The index of the held module named `name`.
    pub fn find_module(&self, name: &str) -> (res: Option<usize>)
        ensures
            match res {
                Some(r) => module_index(self.modules(), name@) == Some(r as int),
                None => module_index(self.modules(), name@) is None,
            },
    {
        let mut i: usize = 0;
        assert(self.modules@.skip(0) =~= self.modules@);
        while i < self.modules.len()
            invariant
                0 <= i <= self.modules@.len(),
                module_index(self.modules@, name@) == (match module_index(
                    self.modules@.skip(i as int),
                    name@,
                ) {
                    Some(k) => Some(k + i),
                    None => None,
                }),
            decreases self.modules@.len() - i,
        {
            assert(self.modules@.skip(i as int)[0] == self.modules@[i as int]);
            assert(self.modules@.skip(i as int).drop_first() =~= self.modules@.skip(i + 1));
            if str_eq(self.modules[i].name.as_str(), name) {
                return Some(i);
            }
            i = i + 1;
        }
        assert(self.modules@.skip(i as int) =~= Seq::<Module>::empty());
        None
    }

    /// Whether a module of that name is held.
    pub fn has_module(&self, name: &str) -> (res: bool)
        ensures
            res == module_index(self.modules(), name@) is Some,
    {
        self.find_module(name).is_some()
    }

    /// Holds `module`, replacing a held module of the same name.
    pub fn add_module(&mut self, module: Module)
        requires
            old(self).wf(),
        ensures
            final(self).wf(),
            match module_index(old(self).modules(), module.name@) {
                Some(i) => final(self).modules() == old(self).modules().update(i, module),
                None => final(self).modules() == old(self).modules().push(module),
            },
    {
        proof {
            lemma_module_index_range(self.modules@, module.name@);
        }
        match self.find_module(module.name.as_str()) {
            Some(i) => {
                self.modules.set(i, module);
            },
            None => {
                self.modules.push(module);
            },
        }
    }

    /// Resolves `sig` in the held module it names (see `resolve_signature`);
    /// `ModuleNotFound` when that module is not held.
    pub fn find_signature(&self, sig: &Signature, wow64: bool) -> (res: Result<usize, ScanError>)
        ensures
            res == (match module_index(self.modules(), sig.module@) {
                None => Err(ScanError::ModuleNotFound),
                Some(i) => spec_resolve_signature(
                    self.modules()[i].data@,
                    self.modules()[i].base,
                    *sig,
                    wow64,
                ),
            }),
    {
        proof {
            lemma_module_index_range(self.modules@, sig.module@);
        }
        let name = sig.module.as_str();
        assert(name@ == sig.module@);
        match self.find_module(name) {
            None => Err(ScanError::ModuleNotFound),
            Some(i) => {
                let m = &self.modules[i];
                resolve_signature(m.data.as_slice(), m.base, sig, wow64)
            },
        }
    }

    /// Resolves every signature of `sigs`, in order.
    pub fn scan_signatures(&self, sigs: &[Signature], wow64: bool) -> (res: Vec<
        Result<usize, ScanError>,
    >)
        ensures
            res@.len() == sigs@.len(),
            forall|k: int|
                0 <= k < sigs@.len() ==> #[trigger] res@[k] == (match module_index(
                    self.modules(),
                    sigs@[k].module@,
                ) {
                    None => Err(ScanError::ModuleNotFound),
                    Some(i) => spec_resolve_signature(
                        self.modules()[i].data@,
                        self.modules()[i].base,
                        sigs@[k],
                        wow64,
                    ),
                }),
    {
        let mut res: Vec<Result<usize, ScanError>> = Vec::new();
        let mut k: usize = 0;
        while k < sigs.len()
            invariant
                0 <= k <= sigs@.len(),
                res@.len() == k,
                forall|m: int|
                    0 <= m < k ==> #[trigger] res@[m] == (match module_index(
                        self.modules(),
                        sigs@[m].module@,
                    ) {
                        None => Err(ScanError::ModuleNotFound),
                        Some(i) => spec_resolve_signature(
                            self.modules()[i].data@,
                            self.modules()[i].base,
                            sigs@[m],
                            wow64,
                        ),
                    }),
            decreases sigs@.len() - k,
        {
            let r = self.find_signature(&sigs[k], wow64);
            res.push(r);
            k = k + 1;
        }
        res
    }
}

/// After a module is added, signatures naming it are resolved against
/// it: it is the one module held under its name.
pub proof fn lemma_added_module_is_found(mods: Seq<Module>, m: Module)
    requires
        names_unique(mods),
    ensures
        ({
            let after = match module_index(mods, m.name@) {
                Some(i) => mods.update(i, m),
                None => mods.push(m),
            };
            module_index(after, m.name@) matches Some(j) && after[j] == m
        }),
{
    lemma_module_index_range(mods, m.name@);
    let after = match module_index(mods, m.name@) {
        Some(i) => mods.update(i, m),
        None => mods.push(m),
    };
    lemma_module_index_range(after, m.name@);
    match module_index(mods, m.name@) {
        Some(i) => {
            assert(after[i].name@ == m.name@);
        },
        None => {
            assert(after[mods.len() as int].name@ == m.name@);
        },
    }
    if let Some(j) = module_index(after, m.name@) {
        match module_index(mods, m.name@) {
            Some(i) => {
                if j < i {
                    assert(mods[j].name@ == m.name@);
                }
            },
            None => {
                if j < mods.len() {
                    assert(mods[j].name@ == m.name@);
                }
            },
        }
    }
}

/// An absolute result is the relative result plus the module base
/// (wrapping): asking for a relative address only leaves the base out.
pub proof fn lemma_absolute_is_relative_plus_base(
    data: Seq<u8>,
    base: usize,
    found: Option<usize>,
    offsets: Seq<isize>,
    rip_relative: bool,
    rip_offset: isize,
    extra: isize,
    wow64: bool,
)
    ensures
        spec_resolve_from(data, base, found, offsets, rip_relative, rip_offset, extra, false, wow64)
            == (match spec_resolve_from(
            data,
            base,
            found,
            offsets,
            rip_relative,
            rip_offset,
            extra,
            true,
            wow64,
        ) {
            Ok(a) => Ok(wrapping_add(a, base)),
            Err(e) => Err(e),
        }),
{
}

/// A signature with no pointers to follow, no displacement and nothing
/// extra resolves, relatively, to where its pattern first occurs, and fails
/// only when the pattern occurs nowhere.
pub proof fn lemma_plain_signature_is_match_index(data: Seq<u8>, base: usize, found: Option<usize>, wow64: bool)
    ensures
        spec_resolve_from(data, base, found, Seq::empty(), false, 0, 0, true, wow64) == (match found {
            Some(i) => Ok(i),
            None => Err(ScanError::PatternNotFound),
        }),
{
}

/// The extra amount is added last: for a relative result, resolving with
/// `extra` gives the result without it, moved by `extra` (wrapping).
pub proof fn lemma_extra_shifts_relative_result(
    data: Seq<u8>,
    base: usize,
    found: Option<usize>,
    offsets: Seq<isize>,
    rip_relative: bool,
    rip_offset: isize,
    extra: isize,
    wow64: bool,
)
    ensures
        spec_resolve_from(data, base, found, offsets, rip_relative, rip_offset, extra, true, wow64)
            == (match spec_resolve_from(
            data,
            base,
            found,
            offsets,
            rip_relative,
            rip_offset,
            0,
            true,
            wow64,
        ) {
            Ok(a) => Ok(wrapping_add_signed(a, extra)),
            Err(e) => Err(e),
        }),
{
}

} // verus!
