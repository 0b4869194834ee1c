//! Named addresses in the game module, and offsets resolved from signatures.
use vstd::prelude::*;
use crate::mem::{
    expand_mask, find_pattern, first_match_from, pattern_cells, valid_pattern_text,
    PatternSearchError,
};

verus! {

/// A registry of named addresses. The first address recorded under a name is
/// the one that stays, and no name is recorded twice.
#[derive(Debug)]
pub struct Offsets {
    addresses: Vec<(String, usize)>,
}

/// Whether no name occurs twice among the entries.
pub open spec fn names_unique(e: Seq<(String, usize)>) -> bool {
    forall|i: int, j: int| 0 <= i < j < e.len() ==> (#[trigger] e[i]).0@ != (#[trigger] e[j]).0@
}

/// A name has an address in the map of the entries exactly when some entry carries it.
proof fn lemma_entries_map_contains(e: Seq<(String, usize)>, name: Seq<char>)
    ensures
        entries_map(e).contains_key(name) <==> exists|i: int| 0 <= i < e.len() && (#[trigger] e[i]).0@ == name,
    decreases e.len(),
{
    if e.len() > 0 {
        lemma_entries_map_contains(e.drop_last(), name);
        if entries_map(e.drop_last()).contains_key(name) {
            let i = choose|i: int| 0 <= i < e.drop_last().len() && (#[trigger] e.drop_last()[i]).0@ == name;
            assert(e[i] == e.drop_last()[i]);
        }
        assert forall|i: int| 0 <= i < e.len() - 1 implies (#[trigger] e[i]) == e.drop_last()[i] by {}
    }
}

/// The map that a list of entries describes; a later entry for a name
/// replaces an earlier one.
pub open spec fn entries_map(e: Seq<(String, usize)>) -> Map<Seq<char>, usize>
    decreases e.len(),
{
    if e.len() == 0 {
        Map::empty()
    } else {
        entries_map(e.drop_last()).insert(e.last().0@, e.last().1)
    }
}

impl View for Offsets {
    type V = Map<Seq<char>, usize>;

    closed spec fn view(&self) -> Map<Seq<char>, usize> {
        entries_map(self.addresses@)
    }
}

/// The registry after recording `address` under `name`, unless `name` is
/// already recorded.
pub open spec fn map_address_spec(m: Map<Seq<char>, usize>, name: Seq<char>, address: usize) -> Map<Seq<char>, usize> {
    if m.contains_key(name) {
        m
    } else {
        m.insert(name, address)
    }
}

impl Offsets {
    /// The registry records each name once.
    #[verifier::type_invariant]
    spec fn inv(self) -> bool {
        names_unique(self.addresses@)
    }

    /// An empty registry.
    pub fn new() -> (r: Offsets)
        ensures
            r@ == Map::<Seq<char>, usize>::empty(),
    {
        Offsets { addresses: Vec::new() }
    }

    /// Whether no address is recorded.
    pub fn is_empty(&self) -> (r: bool)
        ensures
            r == (self@.dom().len() == 0),
    {
        proof {
            self.lemma_view_finite();
            if self.addresses.len() > 0 {
                let e = self.addresses@;
                assert(self@.contains_key(e.last().0@));
            }
        }
        self.addresses.len() == 0
    }

    proof fn lemma_view_finite(&self)
        ensures
            self@.dom().finite(),
            self.addresses.len() == 0 ==> self@.dom().len() == 0,
    {
        lemma_entries_map_finite(self.addresses@);
    }

    /// The address recorded under `name`, if any.
    pub fn resolve_raw(&self, name: &str) -> (r: Option<usize>)
        ensures
            r == (if self@.contains_key(name@) { Some(self@[name@]) } else { None::<usize> }),
    {
        let mut i: usize = self.addresses.len();
        proof {
            assert(self.addresses@.subrange(0, i as int) =~= self.addresses@);
        }
        while i > 0
            invariant
                i <= self.addresses.len(),
                entries_map(self.addresses@.subrange(0, i as int)).contains_key(name@)
                    == self@.contains_key(name@),
                entries_map(self.addresses@.subrange(0, i as int)).contains_key(name@)
                    ==> entries_map(self.addresses@.subrange(0, i as int))[name@] == self@[name@],
            decreases i,
        {
            let ghost sub = self.addresses@.subrange(0, i as int);
            proof {
                assert(sub.drop_last() =~= self.addresses@.subrange(0, i - 1));
            }
            if crate::text::str_equals(self.addresses[i - 1].0.as_str(), name) {
                return Some(self.addresses[i - 1].1);
            }
            i = i - 1;
        }
        None
    }

    /// Records `address` under `name`, unless `name` is already recorded.
    pub fn map_address(&mut self, name: &str, address: usize)
        ensures
            final(self)@ == map_address_spec(old(self)@, name@, address),
    {
        if self.resolve_raw(name).is_none() {
            proof {
                use_type_invariant(&*self);
                lemma_entries_map_contains(self.addresses@, name@);
            }
            let ghost before = self.addresses@;
            let entry = (name.to_owned(), address);
            proof {
                assert(names_unique(before.push(entry)));
            }
            let mut entries: Vec<(String, usize)> = Vec::new();
            std::mem::swap(&mut entries, &mut self.addresses);
            entries.push(entry);
            self.addresses = entries;
            proof {
                assert(self.addresses@.drop_last() =~= before);
            }
        }
    }

    /// Records under `name` the address where the signature `pattern` is first
    /// found in the module at `module_start`, whose bytes are `image`. The
    /// absolute address is recorded, not its offset from the module start
    /// (unlike `map_offset`), so `resolve` adds the module base to it once
    /// more.
    pub fn map_pattern(&mut self, name: &str, module_start: usize, image: &[u8], pattern: &str)
        requires
            valid_pattern_text(pattern@),
            pattern_cells(expand_mask(pattern@)).len() > 0,
            module_start + image.len() <= usize::MAX,
            first_match_from(image@, pattern_cells(expand_mask(pattern@)), 0) is Some,
        ensures
            final(self)@ == map_address_spec(
                old(self)@,
                name@,
                (module_start + first_match_from(image@, pattern_cells(expand_mask(pattern@)), 0).unwrap()) as usize,
            ),
    {
        match find_pattern(module_start, image, pattern) {
            Ok(address) => self.map_address(name, address),
            Err(_) => {},
        }
    }

    /// Records under `name` the offset of `offset` from the module base.
    pub fn map_offset(&mut self, name: &str, offset: Offset, module_base: usize)
        requires
            offset@ >= module_base,
        ensures
            final(self)@ == map_address_spec(old(self)@, name@, (offset@ - module_base) as usize),
    {
        let relative = offset.as_offset(module_base);
        self.map_address(name, relative);
    }

    /// The address of the offset recorded under `name`, counted from the
    /// module base `module_base`. For a name recorded by `map_pattern`, which
    /// records an absolute address, the base is added a second time.
    pub fn resolve(&self, name: &str, module_base: usize) -> (r: Option<usize>)
        requires
            self@.contains_key(name@) ==> module_base + self@[name@] <= usize::MAX,
        ensures
            r == (if self@.contains_key(name@) {
                Some((module_base + self@[name@]) as usize)
            } else {
                None::<usize>
            }),
    {
        match self.resolve_raw(name) {
            Some(offset) => Some(module_base + offset),
            None => None,
        }
    }

    /// Prepares the registry for the target game. No addresses are recorded
    /// up front for the supported games, so the registry is left as it is.
    pub fn setup(&mut self)
        ensures
            final(self)@ == old(self)@,
    {
        if !self.is_empty() {
            return;
        }
    }
}

proof fn lemma_entries_map_finite(e: Seq<(String, usize)>)
    ensures
        entries_map(e).dom().finite(),
        e.len() == 0 ==> entries_map(e).dom().len() == 0,
    decreases e.len(),
{
    if e.len() > 0 {
        lemma_entries_map_finite(e.drop_last());
    } else {
    }
}

/// After a name is recorded, looking it up gives the first address recorded
/// under it: the new one when the name was new, the old one otherwise.
pub proof fn law_resolve_after_map(m: Map<Seq<char>, usize>, name: Seq<char>, address: usize)
    ensures
        map_address_spec(m, name, address).contains_key(name),
        map_address_spec(m, name, address)[name] == (if m.contains_key(name) { m[name] } else { address }),
        forall|other: Seq<char>| other != name ==> (#[trigger] map_address_spec(m, name, address).contains_key(other))
            == m.contains_key(other) && (m.contains_key(other) ==> map_address_spec(m, name, address)[other] == m[other]),
{
}

/// An address in memory.
#[derive(Debug, Copy, Clone, PartialEq, Eq, Structural)]
pub struct Offset(usize);

impl View for Offset {
    type V = usize;

    closed spec fn view(&self) -> usize {
        self.0
    }
}

impl Offset {
    /// The offset at `address`.
    pub fn new(address: usize) -> (r: Offset)
        ensures
            r@ == address,
    {
        Offset(address)
    }

    /// The address itself.
    pub fn address(&self) -> (r: usize)
        ensures
            r == self@,
    {
        self.0
    }

    /// The address where the signature `pattern` is first found in the
    /// module at `module_start`, whose bytes are `image`.
    pub fn from_signature(module_start: usize, image: &[u8], pattern: &str) -> (r: Result<Offset, PatternSearchError>)
        requires
            valid_pattern_text(pattern@),
            pattern_cells(expand_mask(pattern@)).len() > 0,
            module_start + image.len() <= usize::MAX,
        ensures
            match first_match_from(image@, pattern_cells(expand_mask(pattern@)), 0) {
                Some(p) => r matches Ok(o) && o@ == module_start + p,
                None => r matches Err(PatternSearchError::NotFound),
            },
    {
        match find_pattern(module_start, image, pattern) {
            Ok(address) => Ok(Offset::new(address)),
            Err(e) => Err(e),
        }
    }

    /// This address moved forward by `offset` bytes.
    pub fn as_adjusted(&self, offset: usize) -> (r: Offset)
        requires
            self@ + offset <= usize::MAX,
        ensures
            r@ == self@ + offset,
    {
        Offset(self.0 + offset)
    }

    /// This address moved back by `offset` bytes.
    pub fn as_nadjusted(&self, offset: usize) -> (r: Offset)
        requires
            self@ >= offset,
        ensures
            r@ == self@ - offset,
    {
        Offset(self.0 - offset)
    }

    /// Where the 32-bit displacement of an instruction of `instruction_length`
    /// bytes that starts at this address is stored: its last four bytes.
    pub fn displacement_address(&self, instruction_length: usize) -> (r: usize)
        requires
            instruction_length >= 4,
            self@ + instruction_length - 4 <= usize::MAX,
        ensures
            r == self@ + instruction_length - 4,
    {
        self.0 + (instruction_length - 4)
    }

    /// The target of a RIP-relative instruction of `instruction_length` bytes
    /// at this address, whose 32-bit displacement (read as unsigned) is
    /// `displacement`: the end of the instruction plus the displacement. The
    /// displacement is zero-extended, so a negative displacement is not
    /// followed backwards.
    pub fn as_relative(&self, instruction_length: usize, displacement: u32) -> (r: Offset)
        requires
            instruction_length >= 4,
            self@ + displacement + instruction_length <= usize::MAX,
        ensures
            r@ == self@ + displacement + instruction_length,
    {
        Offset(self.0 + (displacement as usize + instruction_length))
    }

    /// This address as an offset from the module base `module_base`.
    pub fn as_offset(&self, module_base: usize) -> (r: usize)
        requires
            self@ >= module_base,
        ensures
            r == self@ - module_base,
    {
        self.0 - module_base
    }
}

/// The little-endian two's complement 32-bit value at `off`.
pub open spec fn le_i32(b: Seq<u8>, off: int) -> int {
    crate::pe::signed32(crate::pe::le_u32(b, off))
}

/// Where the target of the instruction found by `signature` lies, as an
/// offset from the module base: the instruction is found in the module
/// image, its 32-bit displacement is read `add` bytes after its start, and
/// the target is the displacement counted from the end of those four bytes.
pub open spec fn instruction_target(image: Seq<u8>, signature: Seq<char>, add: int) -> Option<int> {
    match first_match_from(image, pattern_cells(expand_mask(signature)), 0) {
        Some(p) => if p + add + 4 <= image.len() {
            Some(p + add + le_i32(image, p + add) + 4)
        } else {
            None
        },
        None => None,
    }
}

/// The offset from the module base of the target of the instruction found
/// by `signature` in the module at `module_base`, whose bytes are `image`
/// (see `instruction_target`). Fails with `NotFound` when the signature is
/// not in the image.
pub fn offset_from_instruction(module_base: usize, image: &[u8], signature: &str, add: u32) -> (r: Result<usize, PatternSearchError>)
    requires
        valid_pattern_text(signature@),
        pattern_cells(expand_mask(signature@)).len() > 0,
        module_base + image.len() <= usize::MAX,
        first_match_from(image@, pattern_cells(expand_mask(signature@)), 0) is Some ==> {
            &&& instruction_target(image@, signature@, add as int) matches Some(t)
            &&& 0 <= t <= usize::MAX
        },
    ensures
        match first_match_from(image@, pattern_cells(expand_mask(signature@)), 0) {
            Some(_) => r matches Ok(t) && Some(t as int) == instruction_target(image@, signature@, add as int),
            None => r matches Err(PatternSearchError::NotFound),
        },
{
    let address = match find_pattern(module_base, image, signature) {
        Ok(a) => a,
        Err(e) => {
            return Err(e);
        },
    };
    proof {
        crate::mem::lemma_first_match(image@, pattern_cells(expand_mask(signature@)), 0);
    }
    let offset_in_image = address - module_base;
    let position = offset_in_image + add as usize;
    let raw = image[position] as u32 + (image[position + 1] as u32) * 0x100 + (image[position + 2] as u32) * 0x10000
        + (image[position + 3] as u32) * 0x1000000;
    let displacement: i128 = if raw < 0x8000_0000 { raw as i128 } else { raw as i128 - 0x1_0000_0000 };
    let target = position as i128 + displacement + 4;
    Ok(target as usize)
}

/// The target of an instruction is read from all four displacement bytes:
/// where the signature is first found at `p`, and the four bytes at
/// `p + add` lie in the image, the target is `p + add + 4` plus those bytes
/// read little-endian as a signed 32-bit number (negative when the top bit
/// of the last byte is set). Without a match there is no target.
pub proof fn law_instruction_target_reads_four_bytes(image: Seq<u8>, signature: Seq<char>, add: int)
    requires
        add >= 0,
    ensures
        match first_match_from(image, pattern_cells(expand_mask(signature)), 0) {
            Some(p) => {
                let q = p + add;
                let raw = image[q] as int + image[q + 1] as int * 256 + image[q + 2] as int * 65536
                    + image[q + 3] as int * 16777216;
                q + 4 <= image.len() ==> instruction_target(image, signature, add) == Some(
                    q + 4 + (if image[q + 3] < 128 { raw } else { raw - 4294967296 }),
                )
            },
            None => instruction_target(image, signature, add) is None,
        },
{
}

} // verus!
