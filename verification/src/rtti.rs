//! Runtime type information of the game: kinds, names, which memory can hold
//! a type descriptor, and the walk over the types a descriptor refers to.
use vstd::prelude::*;
use crate::text::str_equals;

verus! {

/// The kind of a runtime type descriptor, in the order of its numeric tag.
#[derive(Debug, Copy, Clone, PartialEq, Eq, Structural)]
pub enum RTTIKind {
    Atom,
    Pointer,
    Container,
    Enum,
    Compound,
    EnumFlags,
    POD,
    EnumBitSet,
}

/// The kind with numeric tag `tag`.
pub open spec fn kind_of_tag(tag: u8) -> Option<RTTIKind> {
    if tag == 0 { Some(RTTIKind::Atom) }
    else if tag == 1 { Some(RTTIKind::Pointer) }
    else if tag == 2 { Some(RTTIKind::Container) }
    else if tag == 3 { Some(RTTIKind::Enum) }
    else if tag == 4 { Some(RTTIKind::Compound) }
    else if tag == 5 { Some(RTTIKind::EnumFlags) }
    else if tag == 6 { Some(RTTIKind::POD) }
    else if tag == 7 { Some(RTTIKind::EnumBitSet) }
    else { None }
}

/// Factory flag: the type is registered with the RTTI factory.
pub const RTTI_FACTORY_REGISTERED: u8 = 0x2;
/// Factory flag: the type is registered with the factory manager.
pub const FACTORY_MANAGER_REGISTERED: u8 = 0x4;

/// The header shared by all type descriptors: identifier, kind and factory flags.
#[derive(Debug, Copy, Clone, PartialEq, Eq, Structural)]
pub struct RTTI {
    pub id: u32,
    pub kind: RTTIKind,
    pub factory_flags: u8,
}

impl RTTI {
    /// Whether the descriptor has all the factory flags of `flags`.
    pub fn has_flags(&self, flags: u8) -> (r: bool)
        ensures
            r == (self.factory_flags & flags == flags),
    {
        self.factory_flags & flags == flags
    }
}

/// The name of a kind, as it is displayed.
pub open spec fn kind_name(kind: RTTIKind) -> Seq<char> {
    match kind {
        RTTIKind::Atom => "atom"@,
        RTTIKind::Pointer => "pointer"@,
        RTTIKind::Container => "container"@,
        RTTIKind::Enum => "enum"@,
        RTTIKind::Compound => "compound"@,
        RTTIKind::EnumFlags => "enum flags"@,
        RTTIKind::POD => "pod"@,
        RTTIKind::EnumBitSet => "enum bitset"@,
    }
}

impl RTTIKind {
    /// The kind whose numeric tag is `tag`.
    pub fn from_tag(tag: u8) -> (r: Option<RTTIKind>)
        ensures
            r == kind_of_tag(tag),
    {
        if tag == 0 { Some(RTTIKind::Atom) }
        else if tag == 1 { Some(RTTIKind::Pointer) }
        else if tag == 2 { Some(RTTIKind::Container) }
        else if tag == 3 { Some(RTTIKind::Enum) }
        else if tag == 4 { Some(RTTIKind::Compound) }
        else if tag == 5 { Some(RTTIKind::EnumFlags) }
        else if tag == 6 { Some(RTTIKind::POD) }
        else if tag == 7 { Some(RTTIKind::EnumBitSet) }
        else { None }
    }

    /// The name of this kind, as it is displayed.
    pub fn to_string(&self) -> (r: String)
        ensures
            r@ == kind_name(*self),
    {
        let s = match self {
            RTTIKind::Atom => "atom",
            RTTIKind::Pointer => "pointer",
            RTTIKind::Container => "container",
            RTTIKind::Enum => "enum",
            RTTIKind::Compound => "compound",
            RTTIKind::EnumFlags => "enum flags",
            RTTIKind::POD => "pod",
            RTTIKind::EnumBitSet => "enum bitset",
        };
        s.to_owned()
    }

    /// Whether descriptors of this kind describe an enumeration.
    pub fn is_enum(&self) -> (r: bool)
        ensures
            r == (*self == RTTIKind::Enum || *self == RTTIKind::EnumFlags || *self == RTTIKind::EnumBitSet),
    {
        match self {
            RTTIKind::Enum | RTTIKind::EnumFlags | RTTIKind::EnumBitSet => true,
            _ => false,
        }
    }
}

/// The kind of an exported symbol, in the order of its numeric tag.
#[derive(Debug, Copy, Clone, PartialEq, Eq, Structural)]
pub enum ExportedSymbolKind {
    Atom,
    Enum,
    Class,
    Struct,
    Typedef,
    Function,
    Variable,
    Container,
    Reference,
    Pointer,
    Unk10,
}

/// The name of a symbol kind, as it is displayed.
pub open spec fn symbol_kind_name(kind: ExportedSymbolKind) -> Seq<char> {
    match kind {
        ExportedSymbolKind::Atom => "Atom"@,
        ExportedSymbolKind::Enum => "Enum"@,
        ExportedSymbolKind::Class => "Class"@,
        ExportedSymbolKind::Struct => "Struct"@,
        ExportedSymbolKind::Typedef => "Typedef"@,
        ExportedSymbolKind::Function => "Function"@,
        ExportedSymbolKind::Variable => "Variable"@,
        ExportedSymbolKind::Container => "Container"@,
        ExportedSymbolKind::Reference => "Reference"@,
        ExportedSymbolKind::Pointer => "Pointer"@,
        ExportedSymbolKind::Unk10 => "Unk10"@,
    }
}

impl ExportedSymbolKind {
    /// The name of this kind, as it is displayed.
    pub fn to_string(&self) -> (r: String)
        ensures
            r@ == symbol_kind_name(*self),
    {
        let s = match self {
            ExportedSymbolKind::Atom => "Atom",
            ExportedSymbolKind::Enum => "Enum",
            ExportedSymbolKind::Class => "Class",
            ExportedSymbolKind::Struct => "Struct",
            ExportedSymbolKind::Typedef => "Typedef",
            ExportedSymbolKind::Function => "Function",
            ExportedSymbolKind::Variable => "Variable",
            ExportedSymbolKind::Container => "Container",
            ExportedSymbolKind::Reference => "Reference",
            ExportedSymbolKind::Pointer => "Pointer",
            ExportedSymbolKind::Unk10 => "Unk10",
        };
        s.to_owned()
    }
}

/// The names a type descriptor carries: its own type name and, for pointer
/// and container descriptors, the type name of their pointer or container data.
#[derive(Debug, Clone)]
pub struct RTTINames {
    pub kind: RTTIKind,
    pub name: String,
    pub data_name: String,
}

/// The full name of a type: `name<data name>` for pointers and containers,
/// its type name otherwise.
pub open spec fn full_name(n: RTTINames) -> Seq<char> {
    if n.kind == RTTIKind::Pointer || n.kind == RTTIKind::Container {
        n.name@ + seq!['<'] + n.data_name@ + seq!['>']
    } else {
        n.name@
    }
}

/// The base name of a type: the data name for pointers and containers, its
/// type name otherwise.
pub open spec fn base_name(n: RTTINames) -> Seq<char> {
    if n.kind == RTTIKind::Pointer || n.kind == RTTIKind::Container {
        n.data_name@
    } else {
        n.name@
    }
}

/// The full name of a type (see `full_name`).
pub fn rtti_name(n: &RTTINames) -> (r: String)
    ensures
        r@ == full_name(*n),
{
    if n.kind == RTTIKind::Pointer || n.kind == RTTIKind::Container {
        let mut r = n.name.clone();
        crate::text::push_char(&mut r, '<');
        r.append(n.data_name.as_str());
        crate::text::push_char(&mut r, '>');
        r
    } else {
        n.name.clone()
    }
}

/// The base name of a type (see `base_name`).
pub fn rtti_base_name(n: &RTTINames) -> (r: String)
    ensures
        r@ == base_name(*n),
{
    if n.kind == RTTIKind::Pointer || n.kind == RTTIKind::Container {
        n.data_name.clone()
    } else {
        n.name.clone()
    }
}

/// The texts of the filled slots, in order.
pub open spec fn filled_slots(slots: Seq<Option<String>>) -> Seq<Seq<char>>
    decreases slots.len(),
{
    if slots.len() == 0 {
        Seq::empty()
    } else {
        match slots.last() {
            Some(s) => filled_slots(slots.drop_last()).push(s@),
            None => filled_slots(slots.drop_last()),
        }
    }
}

/// The aliases of an enumeration value: `None` when the first alias slot is
/// empty, otherwise the aliases of all filled slots in order. Each slot is
/// `None` when it holds no alias.
pub fn rtti_value_aliases(slots: &Vec<Option<String>>) -> (r: Option<Vec<String>>)
    requires
        slots.len() > 0,
    ensures
        slots@[0] is None ==> r is None,
        slots@[0] is Some ==> (r matches Some(v) && v@.map_values(|s: String| s@) == filled_slots(slots@)),
{
    if slots[0].is_none() {
        return None;
    }
    let mut aliases: Vec<String> = Vec::new();
    let mut i: usize = 0;
    while i < slots.len()
        invariant
            i <= slots.len(),
            aliases@.map_values(|s: String| s@) == filled_slots(slots@.subrange(0, i as int)),
        decreases slots.len() - i,
    {
        proof {
            assert(slots@.subrange(0, i + 1).drop_last() =~= slots@.subrange(0, i as int));
        }
        match &slots[i] {
            Some(alias) => {
                aliases.push(alias.clone());
            },
            None => {},
        }
        i = i + 1;
    }
    proof {
        assert(slots@.subrange(0, slots.len() as int) =~= slots@);
    }
    Some(aliases)
}

/// The address ranges in which the pointers of a type descriptor must lie.
#[derive(Debug, Copy, Clone, PartialEq, Eq, Structural)]
pub struct ScanRanges {
    pub data_start: usize,
    pub data_end: usize,
    pub rdata_start: usize,
    pub rdata_end: usize,
}

/// Whether `ptr` is non-null and lies in the data or the read-only data section.
pub open spec fn valid_pointer(r: ScanRanges, ptr: usize) -> bool {
    ptr != 0 && ((r.data_start <= ptr && ptr < r.data_end) || (r.rdata_start <= ptr && ptr < r.rdata_end))
}

/// Whether `ptr` is non-null and lies in the data or the read-only data section.
pub fn is_valid_ptr(r: &ScanRanges, ptr: usize) -> (b: bool)
    ensures
        b == valid_pointer(*r, ptr),
{
    if ptr == 0 {
        false
    } else {
        (ptr >= r.data_start && ptr < r.data_end) || (ptr >= r.rdata_start && ptr < r.rdata_end)
    }
}

/// What the scan reads of a candidate type descriptor, by kind.
#[derive(Debug, Copy, Clone, PartialEq, Eq, Structural)]
pub enum RTTICandidate {
    Atom { size: u16, alignment: u8, fn_constructor: usize, fn_destructor: usize, base_type: usize, name_ptr: usize },
    Enum { enum_size: u8, name_ptr: usize, values: usize },
    Container { item_type: usize, container_type: usize, container_name_ptr: usize },
    Compound {
        name_ptr: usize,
        bases_len: u8,
        bases: usize,
        attributes_len: u8,
        message_handlers_len: u8,
        message_handlers: usize,
        message_order_entries_len: u8,
        message_order_entries: usize,
        ordered_attributes_len: u32,
        ordered_attributes: usize,
    },
    /// A descriptor of any other kind.
    Other,
}

/// Whether a candidate looks like a real type descriptor. For compounds with
/// attributes it is the attribute count itself, not the attribute array,
/// that must lie in a valid pointer range.
pub open spec fn plausible(r: ScanRanges, c: RTTICandidate) -> bool {
    match c {
        RTTICandidate::Atom { size, alignment, fn_constructor, fn_destructor, base_type, name_ptr } => {
            &&& size != 0
            &&& alignment != 0
            &&& (fn_constructor == 0 || valid_pointer(r, fn_constructor))
            &&& (fn_destructor == 0 || valid_pointer(r, fn_destructor))
            &&& valid_pointer(r, base_type)
            &&& valid_pointer(r, name_ptr)
        },
        RTTICandidate::Enum { enum_size, name_ptr, values } => {
            &&& enum_size != 0
            &&& valid_pointer(r, name_ptr)
            &&& valid_pointer(r, values)
        },
        RTTICandidate::Container { item_type, container_type, container_name_ptr } => {
            &&& valid_pointer(r, item_type)
            &&& valid_pointer(r, container_type)
            &&& valid_pointer(r, container_name_ptr)
        },
        RTTICandidate::Compound {
            name_ptr,
            bases_len,
            bases,
            attributes_len,
            message_handlers_len,
            message_handlers,
            message_order_entries_len,
            message_order_entries,
            ordered_attributes_len,
            ordered_attributes,
        } => {
            &&& valid_pointer(r, name_ptr)
            &&& (bases_len > 0 ==> valid_pointer(r, bases))
            &&& (attributes_len > 0 ==> valid_pointer(r, attributes_len as usize))
            &&& (message_handlers_len > 0 ==> valid_pointer(r, message_handlers))
            &&& (message_order_entries_len > 0 ==> valid_pointer(r, message_order_entries))
            &&& (ordered_attributes_len > 0 ==> valid_pointer(r, ordered_attributes))
        },
        RTTICandidate::Other => false,
    }
}

/// Whether a candidate found by the scan is taken as a type descriptor (see `plausible`).
pub fn is_plausible_rtti(r: &ScanRanges, c: &RTTICandidate) -> (b: bool)
    ensures
        b == plausible(*r, *c),
{
    match c {
        RTTICandidate::Atom { size, alignment, fn_constructor, fn_destructor, base_type, name_ptr } => {
            *size != 0 && *alignment != 0 && (*fn_constructor == 0 || is_valid_ptr(r, *fn_constructor))
                && (*fn_destructor == 0 || is_valid_ptr(r, *fn_destructor)) && is_valid_ptr(r, *base_type)
                && is_valid_ptr(r, *name_ptr)
        },
        RTTICandidate::Enum { enum_size, name_ptr, values } => {
            *enum_size != 0 && is_valid_ptr(r, *name_ptr) && is_valid_ptr(r, *values)
        },
        RTTICandidate::Container { item_type, container_type, container_name_ptr } => {
            is_valid_ptr(r, *item_type) && is_valid_ptr(r, *container_type) && is_valid_ptr(r, *container_name_ptr)
        },
        RTTICandidate::Compound {
            name_ptr,
            bases_len,
            bases,
            attributes_len,
            message_handlers_len,
            message_handlers,
            message_order_entries_len,
            message_order_entries,
            ordered_attributes_len,
            ordered_attributes,
        } => {
            is_valid_ptr(r, *name_ptr) && (*bases_len == 0 || is_valid_ptr(r, *bases))
                && (*attributes_len == 0 || is_valid_ptr(r, *attributes_len as usize))
                && (*message_handlers_len == 0 || is_valid_ptr(r, *message_handlers))
                && (*message_order_entries_len == 0 || is_valid_ptr(r, *message_order_entries))
                && (*ordered_attributes_len == 0 || is_valid_ptr(r, *ordered_attributes))
        },
        RTTICandidate::Other => false,
    }
}

/// The walk over the type descriptors reachable from a descriptor: each
/// non-null descriptor is reported once, before the descriptors it refers to,
/// which are visited in the order given.
pub struct RTTIWalk {
    types: Vec<usize>,
    pending: Vec<usize>,
}

/// The descriptors found so far, and those still to visit (the last first).
pub struct RTTIWalkState {
    pub types: Seq<usize>,
    pub pending: Seq<usize>,
}

impl View for RTTIWalk {
    type V = RTTIWalkState;

    closed spec fn view(&self) -> RTTIWalkState {
        RTTIWalkState { types: self.types@, pending: self.pending@ }
    }
}

/// Whether the descriptors found are non-null and each is found once.
pub open spec fn found_once(types: Seq<usize>) -> bool {
    &&& forall|i: int| 0 <= i < types.len() ==> #[trigger] types[i] != 0
    &&& forall|i: int, j: int| 0 <= i < j < types.len() ==> #[trigger] types[i] != #[trigger] types[j]
}

/// The next descriptor to visit, taking pending ones from the end and
/// skipping null ones and those already found; and what remains pending.
pub open spec fn next_pending(pending: Seq<usize>, types: Seq<usize>) -> (Seq<usize>, Option<usize>)
    decreases pending.len(),
{
    if pending.len() == 0 {
        (pending, None)
    } else if pending.last() != 0 && !types.contains(pending.last()) {
        (pending.drop_last(), Some(pending.last()))
    } else {
        next_pending(pending.drop_last(), types)
    }
}

impl RTTIWalk {
    /// A walk from `root` that continues after the descriptors `types`
    /// already found.
    pub fn new(types: Vec<usize>, root: usize) -> (r: RTTIWalk)
        requires
            found_once(types@),
        ensures
            r@.types == types@,
            r@.pending == seq![root],
            found_once(r@.types),
    {
        let mut pending = Vec::new();
        pending.push(root);
        RTTIWalk { types, pending }
    }

    /// The next descriptor of the walk, which is then counted as found; the
    /// caller reports it and hands over the descriptors it refers to.
    pub fn next(&mut self) -> (r: Option<usize>)
        requires
            found_once(old(self)@.types),
        ensures
            found_once(final(self)@.types),
            r == next_pending(old(self)@.pending, old(self)@.types).1,
            final(self)@.pending == next_pending(old(self)@.pending, old(self)@.types).0,
            final(self)@.types == match r {
                Some(x) => old(self)@.types.push(x),
                None => old(self)@.types,
            },
    {
        while self.pending.len() > 0
            invariant
                found_once(self.types@),
                self.types@ == old(self)@.types,
                next_pending(old(self)@.pending, old(self)@.types) == next_pending(self.pending@, self.types@),
            decreases self.pending.len(),
        {
            let x = self.pending.pop().unwrap();
            if x != 0 && !contains(&self.types, x) {
                self.types.push(x);
                return Some(x);
            }
        }
        None
    }

    /// Queues the descriptors that the descriptor just reported refers to,
    /// to be visited in the given order before any descriptor queued earlier.
    pub fn expand(&mut self, children: &Vec<usize>)
        ensures
            final(self)@.types == old(self)@.types,
            final(self)@.pending == old(self)@.pending + children@.reverse(),
    {
        let mut i: usize = children.len();
        while i > 0
            invariant
                i <= children.len(),
                self.types@ == old(self)@.types,
                self.pending@ == old(self)@.pending + children@.subrange(i as int, children.len() as int).reverse(),
            decreases i,
        {
            i = i - 1;
            self.pending.push(children[i]);
            proof {
                assert(children@.subrange(i as int, children.len() as int).reverse()
                    =~= children@.subrange(i + 1, children.len() as int).reverse().push(children@[i as int]));
            }
        }
    }

    /// The descriptors found, in the order they were found.
    pub fn into_types(self) -> (r: Vec<usize>)
        ensures
            r@ == self@.types,
    {
        self.types
    }
}

/// Whether the descriptor `c` is null, found, or still to visit.
pub open spec fn covered(types: Seq<usize>, pending: Seq<usize>, c: usize) -> bool {
    c == 0 || types.contains(c) || pending.contains(c)
}

/// Whether every descriptor that a found one refers to (by `refs`, the
/// descriptors that the caller hands to `expand` for it) is covered.
pub open spec fn refs_covered(types: Seq<usize>, pending: Seq<usize>, refs: spec_fn(usize) -> Seq<usize>) -> bool {
    forall|i: int, k: int|
        0 <= i < types.len() && 0 <= k < refs(types[i]).len() ==> covered(types, pending, #[trigger] refs(types[i])[k])
}

/// The descriptors found after the step `next_pending(pending, types)`.
pub open spec fn types_after(pending: Seq<usize>, types: Seq<usize>) -> Seq<usize> {
    match next_pending(pending, types).1 {
        Some(x) => types.push(x),
        None => types,
    }
}

proof fn lemma_next_pending_keeps_covered(pending: Seq<usize>, types: Seq<usize>, c: usize)
    requires
        covered(types, pending, c),
    ensures
        covered(types_after(pending, types), next_pending(pending, types).0, c),
        next_pending(pending, types).1 is None ==> next_pending(pending, types).0.len() == 0,
        types.is_prefix_of(types_after(pending, types)),
    decreases pending.len(),
{
    if pending.len() > 0 {
        let last = pending.last();
        let rest = pending.drop_last();
        if pending.contains(c) && c != last {
            let i = choose|i: int| 0 <= i < pending.len() && pending[i] == c;
            assert(rest[i] == c);
        }
        if last != 0 && !types.contains(last) {
            let t2 = types.push(last);
            assert(t2[types.len() as int] == last);
            if types.contains(c) {
                let i = choose|i: int| 0 <= i < types.len() && types[i] == c;
                assert(t2[i] == c);
            }
            assert(types.is_prefix_of(t2));
        } else {
            lemma_next_pending_keeps_covered(rest, types, c);
        }
    }
}

/// Each step of a walk keeps every reference of a found descriptor covered,
/// and the root too: the next descriptor is counted as found and what it
/// refers to is queued. When the walk ends nothing is pending, so every
/// descriptor that a found one refers to is null or found, and so is the
/// root: the found descriptors are closed under references.
pub proof fn law_walk_covers_references(
    types: Seq<usize>,
    pending: Seq<usize>,
    refs: spec_fn(usize) -> Seq<usize>,
    root: usize,
)
    requires
        refs_covered(types, pending, refs),
        covered(types, pending, root),
    ensures
        next_pending(pending, types).1 matches Some(x) ==> {
            let t2 = types.push(x);
            let p2 = next_pending(pending, types).0 + refs(x).reverse();
            refs_covered(t2, p2, refs) && covered(t2, p2, root)
        },
        next_pending(pending, types).1 is None ==> {
            &&& next_pending(pending, types).0.len() == 0
            &&& root == 0 || types.contains(root)
            &&& forall|i: int, k: int|
                0 <= i < types.len() && 0 <= k < refs(types[i]).len() ==> #[trigger] refs(types[i])[k] == 0
                    || types.contains(refs(types[i])[k])
        },
{
    let (p1, r) = next_pending(pending, types);
    let t1 = types_after(pending, types);
    lemma_next_pending_keeps_covered(pending, types, root);
    assert forall|i: int, k: int| 0 <= i < types.len() && 0 <= k < refs(types[i]).len() implies covered(
        t1,
        p1,
        #[trigger] refs(types[i])[k],
    ) by {
        lemma_next_pending_keeps_covered(pending, types, refs(types[i])[k]);
    }
    match r {
        Some(x) => {
            let t2 = types.push(x);
            let p2 = p1 + refs(x).reverse();
            assert forall|c: usize| covered(t2, p1, c) implies covered(t2, p2, c) by {
                if p1.contains(c) {
                    let j = choose|j: int| 0 <= j < p1.len() && p1[j] == c;
                    assert(p2[j] == c);
                }
            }
            assert forall|i: int, k: int| 0 <= i < t2.len() && 0 <= k < refs(t2[i]).len() implies covered(
                t2,
                p2,
                #[trigger] refs(t2[i])[k],
            ) by {
                if i < types.len() {
                    assert(t2[i] == types[i]);
                } else {
                    let n = refs(x).len();
                    assert(p2[p1.len() + (n - 1 - k)] == refs(x)[k]);
                }
            }
        },
        None => {},
    }
}

proof fn lemma_next_pending_fresh(pending: Seq<usize>, types: Seq<usize>)
    ensures
        next_pending(pending, types).1 matches Some(x) ==> x != 0 && !types.contains(x),
    decreases pending.len(),
{
    if pending.len() > 0 {
        lemma_next_pending_fresh(pending.drop_last(), types);
    }
}

/// Whether every descriptor that a descriptor of `types` refers to (by `refs`)
/// is null or in `types`.
pub open spec fn closed_under_refs(types: Seq<usize>, refs: spec_fn(usize) -> Seq<usize>) -> bool {
    forall|i: int, k: int|
        0 <= i < types.len() && 0 <= k < refs(types[i]).len() ==> #[trigger] refs(types[i])[k] == 0
            || types.contains(refs(types[i])[k])
}

/// Whether `after` is `before` advanced by one step of the walk: the next
/// descriptor is found, and the caller hands what it refers to (`refs` of it)
/// to `expand`.
pub open spec fn walk_step(before: RTTIWalkState, after: RTTIWalkState, refs: spec_fn(usize) -> Seq<usize>) -> bool {
    next_pending(before.pending, before.types).1 matches Some(x) && after.types == before.types.push(x)
        && after.pending == next_pending(before.pending, before.types).0 + refs(x).reverse()
}

/// Whether `trace` is a walk from `root` after the descriptors `trace[0].types`,
/// step by step, that has ended: nothing is left to find at its last state.
pub open spec fn finished_walk(trace: Seq<RTTIWalkState>, refs: spec_fn(usize) -> Seq<usize>, root: usize) -> bool {
    &&& trace.len() >= 1
    &&& trace[0].pending == seq![root]
    &&& forall|s: int| 0 <= s < trace.len() - 1 ==> #[trigger] walk_step(trace[s], trace[s + 1], refs)
    &&& next_pending(trace.last().pending, trace.last().types).1 is None
}

proof fn lemma_walk_prefix(
    trace: Seq<RTTIWalkState>,
    refs: spec_fn(usize) -> Seq<usize>,
    root: usize,
    k: int,
)
    requires
        trace.len() >= 1,
        trace[0].pending == seq![root],
        forall|s: int| 0 <= s < trace.len() - 1 ==> #[trigger] walk_step(trace[s], trace[s + 1], refs),
        found_once(trace[0].types),
        closed_under_refs(trace[0].types, refs),
        0 <= k < trace.len(),
    ensures
        found_once(trace[k].types),
        refs_covered(trace[k].types, trace[k].pending, refs),
        covered(trace[k].types, trace[k].pending, root),
        trace[k].types.len() == trace[0].types.len() + k,
        trace[0].types.is_prefix_of(trace[k].types),
        forall|s: int| 0 <= s < k ==> trace[k].types[trace[0].types.len() + s] == #[trigger] trace[s + 1].types.last(),
    decreases k,
{
    let t0 = trace[0].types;
    if k == 0 {
        assert(trace[0].pending[0] == root);
        assert forall|i: int, q: int| 0 <= i < t0.len() && 0 <= q < refs(t0[i]).len() implies covered(
            t0,
            trace[0].pending,
            #[trigger] refs(t0[i])[q],
        ) by {}
    } else {
        lemma_walk_prefix(trace, refs, root, k - 1);
        let b = trace[k - 1];
        assert(walk_step(trace[k - 1], trace[(k - 1) + 1], refs));
        law_walk_covers_references(b.types, b.pending, refs, root);
        lemma_next_pending_fresh(b.pending, b.types);
        let x = next_pending(b.pending, b.types).1.unwrap();
        assert(trace[k].types == b.types.push(x));
        assert forall|s: int| 0 <= s < k implies trace[k].types[t0.len() + s] == #[trigger] trace[s + 1].types.last() by {
            if s < k - 1 {
                assert(trace[k].types[t0.len() + s] == b.types[t0.len() + s]);
            }
        }
        assert forall|i: int, j: int| 0 <= i < j < trace[k].types.len() implies #[trigger] trace[k].types[i]
            != #[trigger] trace[k].types[j] by {
            if j == b.types.len() {
                assert(b.types.contains(b.types[i]));
            }
        }
    }
}

/// A finished walk from `root`, started after descriptors that hold no
/// duplicates or nulls and are closed under references, keeps those
/// descriptors first; then come the descriptors it reported, one per step, in
/// the order reported; the result holds no duplicates or nulls, holds the
/// root unless it is null, and is closed under references.
pub proof fn law_finished_walk(trace: Seq<RTTIWalkState>, refs: spec_fn(usize) -> Seq<usize>, root: usize)
    requires
        finished_walk(trace, refs, root),
        found_once(trace[0].types),
        closed_under_refs(trace[0].types, refs),
    ensures
        trace[0].types.is_prefix_of(trace.last().types),
        trace.last().types.len() == trace[0].types.len() + trace.len() - 1,
        forall|s: int|
            0 <= s < trace.len() - 1 ==> trace.last().types[trace[0].types.len() + s] == #[trigger] trace[s
                + 1].types.last(),
        found_once(trace.last().types),
        root == 0 || trace.last().types.contains(root),
        closed_under_refs(trace.last().types, refs),
{
    let n = trace.len() - 1;
    lemma_walk_prefix(trace, refs, root, n);
    let last = trace.last();
    law_walk_covers_references(last.types, last.pending, refs, root);
}

fn contains(v: &Vec<usize>, x: usize) -> (r: bool)
    ensures
        r == v@.contains(x),
{
    let mut i: usize = 0;
    while i < v.len()
        invariant
            i <= v.len(),
            forall|q: int| 0 <= q < i ==> v@[q] != x,
        decreases v.len() - i,
    {
        if v[i] == x {
            return true;
        }
        i = i + 1;
    }
    false
}

/// Pointer and container types are the templated kinds: their full name is
/// their own name with the name of their data in angle brackets, and their
/// base name is that data name. Every other type is named by its own name.
pub proof fn law_templated_names(n: RTTINames)
    ensures
        (n.kind == RTTIKind::Pointer || n.kind == RTTIKind::Container) ==> {
            &&& full_name(n) == n.name@ + seq!['<'] + n.data_name@ + seq!['>']
            &&& base_name(n) == n.data_name@
        },
        !(n.kind == RTTIKind::Pointer || n.kind == RTTIKind::Container) ==> {
            &&& full_name(n) == n.name@
            &&& base_name(n) == n.name@
        },
{
}

} // verus!
