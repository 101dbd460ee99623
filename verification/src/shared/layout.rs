//! Sizes, alignments and field offsets of foreign structures.
//!
//! The game is a 64-bit program, so every quantity here is a `u64` whatever
//! the machine that this crate runs on.
//!
//! A [`Layout`] here is a layout of the game, not one of this program's
//! allocator. It has the operations of `std::alloc::Layout` and computes
//! sizes and offsets as that does, with one difference: the only alignments
//! it takes are those that occur in the game's structures, which are 1, 2, 4,
//! 8 and 16. A larger power of two, which `std::alloc::Layout` would take, is
//! refused like any other number.

use vstd::prelude::*;

verus! {

/// The largest size a layout may have once it is padded to its alignment.
pub const MAX_SIZE: u64 = 0x7FFF_FFFF_FFFF_FFFF;

/// The alignments that occur in the game's structures: 1, 2, 4, 8 and 16.
/// Larger powers of two are alignments elsewhere, but not here.
pub open spec fn valid_align(align: u64) -> bool {
    align == 1 || align == 2 || align == 4 || align == 8 || align == 16
}

/// The smallest multiple of `align` that is at least `x`.
pub open spec fn align_up(x: int, align: int) -> int {
    ((x + align - 1) / align) * align
}

/// What `align_up` means: the result is a multiple of `align`, is at least
/// `x`, and is less than `align` above it.
pub proof fn lemma_align_up(x: int, align: u64)
    requires
        0 <= x,
        valid_align(align),
    ensures
        x <= align_up(x, align as int) < x + align,
        align_up(x, align as int) % (align as int) == 0,
        x % (align as int) == 0 ==> align_up(x, align as int) == x,
{
    if align == 1 {
    } else if align == 2 {
    } else if align == 4 {
    } else if align == 8 {
    } else {
    }
}

/// Rounds `x` up to a multiple of `align`, or returns `None` where that
/// multiple doesn't fit in a `u64`.
pub fn round_up(x: u64, align: u64) -> (r: Option<u64>)
    requires
        valid_align(align),
    ensures
        r is Some <==> align_up(x as int, align as int) <= u64::MAX,
        r is Some ==> r->Some_0 == align_up(x as int, align as int),
{
    proof {
        lemma_align_up(x as int, align);
    }
    let rem: u64 = x % align;
    if rem == 0 {
        Some(x)
    } else {
        let r = x.checked_add(align - rem);
        proof {
            let up = align_up(x as int, align as int);
            assert(up == x + align - rem) by {
                if align == 1 {
                } else if align == 2 {
                } else if align == 4 {
                } else if align == 8 {
                } else {
                }
            }
        }
        r
    }
}

/// The error returned when a layout would be larger than it may be, or when
/// a number is no alignment of the game.
#[derive(Debug, Copy, Clone, PartialEq, Eq, Structural)]
pub struct LayoutError;

/// The size and alignment of a block of foreign memory. The alignment is one
/// of 1, 2, 4, 8 and 16, and the size rounded up to it is at most
/// [`MAX_SIZE`].
#[derive(Debug, Copy, Clone, PartialEq, Eq, Structural)]
pub struct Layout {
    size: u64,
    align: u64,
}

impl Layout {
    #[verifier::type_invariant]
    spec fn well_formed(self) -> bool {
        valid_align(self.align) && align_up(self.size as int, self.align as int) <= MAX_SIZE
    }

    /// The number of bytes in the block.
    pub closed spec fn spec_size(&self) -> u64 {
        self.size
    }

    /// The alignment of the block's first byte.
    pub closed spec fn spec_align(&self) -> u64 {
        self.align
    }

    /// Whether a block of `size` bytes aligned to `align` can be described.
    pub open spec fn fits(size: int, align: u64) -> bool {
        valid_align(align) && 0 <= size && align_up(size, align as int) <= MAX_SIZE
    }

    /// Returns the number of bytes in the block.
    #[verifier::when_used_as_spec(spec_size)]
    pub fn size(&self) -> (s: u64)
        ensures
            s == self.spec_size(),
            Layout::fits(s as int, self.spec_align()),
    {
        proof {
            use_type_invariant(self);
        }
        self.size
    }

    /// Returns the alignment of the block's first byte.
    #[verifier::when_used_as_spec(spec_align)]
    pub fn align(&self) -> (a: u64)
        ensures
            a == self.spec_align(),
            valid_align(a),
    {
        proof {
            use_type_invariant(self);
        }
        self.align
    }

    /// Describes a block of `size` bytes aligned to `align`. The block is
    /// refused where `align` is not one of 1, 2, 4, 8 and 16, or where the
    /// size rounded up to the alignment is larger than [`MAX_SIZE`].
    pub fn from_size_align(size: u64, align: u64) -> (r: Result<Layout, LayoutError>)
        ensures
            r is Ok <==> Layout::fits(size as int, align),
            r is Ok ==> r->Ok_0.spec_size() == size && r->Ok_0.spec_align() == align,
    {
        if !(align == 1 || align == 2 || align == 4 || align == 8 || align == 16) {
            return Err(LayoutError);
        }
        match round_up(size, align) {
            Some(padded) => {
                if padded <= MAX_SIZE {
                    Ok(Layout { size, align })
                } else {
                    Err(LayoutError)
                }
            },
            None => Err(LayoutError),
        }
    }

    /// Describes a block of `size` bytes aligned to `align`, where that is
    /// known to be possible.
    pub fn of(size: u64, align: u64) -> (r: Layout)
        requires
            Layout::fits(size as int, align),
        ensures
            r.spec_size() == size,
            r.spec_align() == align,
    {
        Layout { size, align }
    }

    /// Describes this block followed by whatever padding its alignment asks
    /// for.
    pub fn pad_to_align(&self) -> (r: Layout)
        ensures
            r.spec_size() == align_up(self.spec_size() as int, self.spec_align() as int),
            r.spec_align() == self.spec_align(),
    {
        proof {
            use_type_invariant(self);
            lemma_align_up(self.size as int, self.align);
            lemma_align_up(align_up(self.size as int, self.align as int), self.align);
        }
        match round_up(self.size, self.align) {
            Some(padded) => Layout { size: padded, align: self.align },
            None => vstd::pervasive::unreached(),
        }
    }

    /// Describes `count` copies of this block laid out one after another, each
    /// padded to the alignment.
    pub fn array(&self, count: u64) -> (r: Result<Layout, LayoutError>)
        ensures
            r is Ok <==> align_up(self.spec_size() as int, self.spec_align() as int) * count
                <= MAX_SIZE,
            r is Ok ==> r->Ok_0.spec_size() == align_up(
                self.spec_size() as int,
                self.spec_align() as int,
            ) * count && r->Ok_0.spec_align() == self.spec_align(),
    {
        let stride = self.pad_to_align().size();
        proof {
            use_type_invariant(self);
            lemma_align_up(self.size as int, self.align);
        }
        match stride.checked_mul(count) {
            Some(total) => {
                if total <= MAX_SIZE {
                    proof {
                        lemma_multiple_stays_aligned(stride as int, count as int, self.align);
                        lemma_align_up(total as int, self.align);
                    }
                    Ok(Layout { size: total, align: self.align })
                } else {
                    Err(LayoutError)
                }
            },
            None => Err(LayoutError),
        }
    }

    /// Describes this block followed by `next`, with the padding that `next`
    /// needs in between. Returns the combined layout and the offset at which
    /// `next` starts.
    pub fn extend(&self, next: &Layout) -> (r: Result<(Layout, u64), LayoutError>)
        ensures
            r is Ok <==> Layout::fits(
                Layout::extended_size(*self, *next),
                Layout::extended_align(*self, *next),
            ),
            r is Ok ==> {
                let (layout, offset) = r->Ok_0;
                &&& offset == align_up(self.spec_size() as int, next.spec_align() as int)
                &&& layout.spec_size() == Layout::extended_size(*self, *next)
                &&& layout.spec_align() == Layout::extended_align(*self, *next)
            },
    {
        proof {
            use_type_invariant(self);
            use_type_invariant(next);
            lemma_align_up(self.size as int, self.align);
            lemma_align_up(next.size as int, next.align);
            lemma_align_up(self.size as int, next.align);
        }
        let align: u64 = if self.align >= next.align {
            self.align
        } else {
            next.align
        };
        let offset = match round_up(self.size, next.align) {
            Some(offset) => offset,
            None => vstd::pervasive::unreached(),
        };
        let size = match offset.checked_add(next.size) {
            Some(size) => size,
            None => {
                proof {
                    lemma_align_up(offset + next.size, align);
                }
                return Err(LayoutError);
            },
        };
        proof {
            lemma_align_up(size as int, align);
        }
        match round_up(size, align) {
            Some(padded) => {
                if padded <= MAX_SIZE {
                    Ok((Layout { size, align }, offset))
                } else {
                    Err(LayoutError)
                }
            },
            None => Err(LayoutError),
        }
    }

    /// The size of `first` followed by `next`.
    pub open spec fn extended_size(first: Layout, next: Layout) -> int {
        align_up(first.spec_size() as int, next.spec_align() as int) + next.spec_size()
    }

    /// The alignment of `first` followed by `next`: the larger of the two.
    pub open spec fn extended_align(first: Layout, next: Layout) -> u64 {
        if first.spec_align() >= next.spec_align() {
            first.spec_align()
        } else {
            next.spec_align()
        }
    }
}

/// How the bytes of a field are to be read.
#[derive(Debug, Copy, Clone, PartialEq, Eq, Structural)]
pub enum FieldKind {
    /// A number, least significant byte first.
    Integer,
    /// The address of something else in the game's memory.
    Pointer,
    /// Another structure, laid out in place.
    Nested,
    /// Bytes whose meaning is not known. They are never interpreted and
    /// never changed.
    Opaque,
}

/// One field of a foreign structure.
#[derive(Debug, Copy, Clone, PartialEq, Eq, Structural)]
pub struct Field {
    /// Where the field starts, counted from the start of the structure.
    pub offset: u64,
    /// The number of bytes that the field takes.
    pub size: u64,
    /// The alignment that the field asks for.
    pub align: u64,
    /// How the bytes of the field are to be read.
    pub kind: FieldKind,
}

/// The largest structure that a [`StructLayout`] describes. The game's
/// structures are far smaller.
pub const MAX_STRUCT_SIZE: u64 = 0x1_0000_0000;

/// The byte layout of a foreign structure: its fields in the order in which
/// they lie in memory, its size and its alignment.
///
/// A layout is built field by field. Each field is placed at the first
/// offset after the previous one that its alignment allows, as the game's
/// compiler places it.
#[derive(Debug)]
pub struct StructLayout {
    fields: Vec<Field>,
    size: u64,
    align: u64,
}

impl StructLayout {
    #[verifier::type_invariant]
    spec fn well_formed(self) -> bool {
        self.wf()
    }

    /// The fields, in the order in which they lie in memory.
    pub closed spec fn spec_fields(&self) -> Seq<Field> {
        self.fields@
    }

    /// The number of bytes described so far.
    pub closed spec fn spec_size(&self) -> u64 {
        self.size
    }

    /// The largest alignment that any field asks for.
    pub closed spec fn spec_align(&self) -> u64 {
        self.align
    }

    /// What holds of every layout: the fields lie one after another without
    /// overlap and inside the structure, each at a multiple of its own
    /// alignment, and the structure is aligned as strictly as each of them.
    pub open spec fn wf(&self) -> bool {
        &&& valid_align(self.spec_align())
        &&& self.spec_size() <= MAX_STRUCT_SIZE
        &&& forall|i: int|
            0 <= i < self.spec_fields().len() ==> {
                let field = #[trigger] self.spec_fields()[i];
                &&& valid_align(field.align)
                &&& field.align <= self.spec_align()
                &&& field.offset as int % field.align as int == 0
                &&& field.offset + field.size <= self.spec_size()
            }
        &&& forall|i: int, j: int|
            0 <= i < j < self.spec_fields().len() ==> (#[trigger] self.spec_fields()[i]).offset
                + self.spec_fields()[i].size <= (#[trigger] self.spec_fields()[j]).offset
    }

    /// Starts the layout of a structure that has no fields yet.
    pub fn new() -> (l: StructLayout)
        ensures
            l.spec_fields().len() == 0,
            l.spec_size() == 0,
            l.spec_align() == 1,
            l.wf(),
    {
        StructLayout { fields: Vec::new(), size: 0, align: 1 }
    }

    /// Adds a field of `size` bytes that asks for the alignment `align`
    /// behind the fields that are there. `offset` is where the field is
    /// expected to start. It has to be the first offset after the previous
    /// field that the alignment allows.
    pub fn with(self, kind: FieldKind, offset: u64, size: u64, align: u64) -> (l: StructLayout)
        requires
            valid_align(align),
            offset == align_up(self.spec_size() as int, align as int),
            offset + size <= MAX_STRUCT_SIZE,
        ensures
            l.wf(),
            l.spec_fields() == self.spec_fields().push(Field { offset, size, align, kind }),
            l.spec_size() == offset + size,
            l.spec_align() == if self.spec_align() >= align {
                self.spec_align()
            } else {
                align
            },
    {
        proof {
            use_type_invariant(&self);
            lemma_align_up(self.size as int, align);
        }
        let new_align = if self.align >= align {
            self.align
        } else {
            align
        };
        let mut fields = self.fields;
        fields.push(Field { offset, size, align, kind });
        StructLayout { fields, size: offset + size, align: new_align }
    }

    /// Adds the padding that brings the size to a multiple of the alignment.
    /// This ends the layout of a structure. `size` is the size that the
    /// structure is expected to have. It has to be the size of the fields
    /// rounded up to the alignment.
    pub fn finish(self, size: u64) -> (l: StructLayout)
        requires
            size == align_up(self.spec_size() as int, self.spec_align() as int),
        ensures
            l.wf(),
            l.spec_fields() == self.spec_fields(),
            l.spec_size() == size,
            l.spec_align() == self.spec_align(),
            l.spec_size() as int % l.spec_align() as int == 0,
    {
        proof {
            use_type_invariant(&self);
            lemma_align_up(self.size as int, self.align);
            lemma_aligned_limit(self.size as int, self.align);
        }
        StructLayout { fields: self.fields, size, align: self.align }
    }

    /// Adds a field of `size` bytes that asks for the alignment `align`
    /// behind the fields that are there, at the first offset that the
    /// alignment allows. The field is refused where `align` is no alignment
    /// or where the structure would grow past [`MAX_STRUCT_SIZE`].
    pub fn place(self, kind: FieldKind, size: u64, align: u64) -> (r: Result<
        StructLayout,
        LayoutError,
    >)
        ensures
            r is Ok <==> valid_align(align) && align_up(self.spec_size() as int, align as int)
                + size <= MAX_STRUCT_SIZE,
            r is Ok ==> {
                let l = r->Ok_0;
                let offset = align_up(self.spec_size() as int, align as int) as u64;
                &&& l.wf()
                &&& l.spec_fields() == self.spec_fields().push(
                    (Field { offset, size, align, kind }),
                )
                &&& l.spec_size() == offset + size
                &&& l.spec_align() == if self.spec_align() >= align {
                    self.spec_align()
                } else {
                    align
                }
            },
    {
        if !(align == 1 || align == 2 || align == 4 || align == 8 || align == 16) {
            return Err(LayoutError);
        }
        proof {
            use_type_invariant(&self);
            lemma_align_up(self.size as int, align);
        }
        let offset = match round_up(self.size, align) {
            Some(offset) => offset,
            None => vstd::pervasive::unreached(),
        };
        if offset > MAX_STRUCT_SIZE || size > MAX_STRUCT_SIZE - offset {
            return Err(LayoutError);
        }
        Ok(self.with(kind, offset, size, align))
    }

    /// Adds the padding that brings the size to a multiple of the alignment,
    /// whatever that size comes to. This ends the layout of a structure.
    pub fn pad(self) -> (l: StructLayout)
        ensures
            l.wf(),
            l.spec_fields() == self.spec_fields(),
            l.spec_size() == align_up(self.spec_size() as int, self.spec_align() as int),
            l.spec_align() == self.spec_align(),
            l.spec_size() as int % l.spec_align() as int == 0,
    {
        proof {
            use_type_invariant(&self);
            lemma_align_up(self.size as int, self.align);
            lemma_aligned_limit(self.size as int, self.align);
        }
        let size = match round_up(self.size, self.align) {
            Some(size) => size,
            None => vstd::pervasive::unreached(),
        };
        self.finish(size)
    }

    /// Returns the number of bytes that the structure takes.
    #[verifier::when_used_as_spec(spec_size)]
    pub fn size(&self) -> (s: u64)
        ensures
            s == self.spec_size(),
            self.wf(),
    {
        proof {
            use_type_invariant(self);
        }
        self.size
    }

    /// Returns the structure's alignment.
    #[verifier::when_used_as_spec(spec_align)]
    pub fn align(&self) -> (a: u64)
        ensures
            a == self.spec_align(),
            self.wf(),
    {
        proof {
            use_type_invariant(self);
        }
        self.align
    }

    /// Returns the number of fields.
    pub fn field_count(&self) -> (n: usize)
        ensures
            n == self.spec_fields().len(),
    {
        self.fields.len()
    }

    /// Returns the field at `index`, or `None` where there are not that many
    /// fields.
    pub fn field(&self, index: usize) -> (r: Option<Field>)
        ensures
            r is Some <==> index < self.spec_fields().len(),
            r is Some ==> r->Some_0 == self.spec_fields()[index as int],
    {
        if index < self.fields.len() {
            Some(self.fields[index])
        } else {
            None
        }
    }

    /// Returns the size and alignment of the structure as a whole.
    pub fn layout(&self) -> (r: Layout)
        ensures
            r.spec_size() == self.spec_size(),
            r.spec_align() == self.spec_align(),
    {
        proof {
            use_type_invariant(self);
            lemma_align_up(self.size as int, self.align);
        }
        Layout { size: self.size, align: self.align }
    }
}

/// Rounding a size below [`MAX_STRUCT_SIZE`] up to an alignment doesn't take
/// it above [`MAX_STRUCT_SIZE`].
proof fn lemma_aligned_limit(size: int, align: u64)
    requires
        0 <= size <= MAX_STRUCT_SIZE,
        valid_align(align),
    ensures
        align_up(size, align as int) <= MAX_STRUCT_SIZE,
{
    if align == 1 {
    } else if align == 2 {
    } else if align == 4 {
    } else if align == 8 {
    } else {
    }
}

/// A multiple of an aligned stride is aligned.
proof fn lemma_multiple_stays_aligned(stride: int, count: int, align: u64)
    requires
        valid_align(align),
        0 <= stride,
        0 <= count,
        stride % (align as int) == 0,
    ensures
        (stride * count) % (align as int) == 0,
{
    let a = align as int;
    let q = stride / a;
    assert(stride == q * a);
    assert(stride * count == (q * count) * a) by (nonlinear_arith)
        requires
            stride == q * a,
    ;
    assert(((q * count) * a) % a == 0) by (nonlinear_arith)
        requires
            a > 0,
    ;
}

} // verus!
