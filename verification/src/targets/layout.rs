//! Sizes and alignments, in bytes, of the primitive types of a target.

use vstd::prelude::*;
use vstd::string::StringExecFns;

use crate::targets::triple::Arch;
use crate::targets::triple::TargetTriple;
use crate::text::decimal;
use crate::text::push_decimal;

verus! {

/// The size and the alignment of a pointer and of every primitive type, in bytes.
#[derive(Debug, Clone, Copy, PartialEq, Eq, Structural)]
pub struct DataLayout {
    /// The size of a pointer.
    pub pointer_size: u64,
    /// The alignment of a pointer.
    pub pointer_align: u64,
    /// The size of a `usize`.
    pub usize_size: u64,
    /// The alignment of a `usize`.
    pub usize_align: u64,
    /// The size of an `isize`.
    pub isize_size: u64,
    /// The alignment of an `isize`.
    pub isize_align: u64,
    /// The size of a `u8`.
    pub u8_size: u64,
    /// The alignment of a `u8`.
    pub u8_align: u64,
    /// The size of an `i8`.
    pub i8_size: u64,
    /// The alignment of an `i8`.
    pub i8_align: u64,
    /// The size of a `u16`.
    pub u16_size: u64,
    /// The alignment of a `u16`.
    pub u16_align: u64,
    /// The size of an `i16`.
    pub i16_size: u64,
    /// The alignment of an `i16`.
    pub i16_align: u64,
    /// The size of a `u32`.
    pub u32_size: u64,
    /// The alignment of a `u32`.
    pub u32_align: u64,
    /// The size of an `i32`.
    pub i32_size: u64,
    /// The alignment of an `i32`.
    pub i32_align: u64,
    /// The size of a `u64`.
    pub u64_size: u64,
    /// The alignment of a `u64`.
    pub u64_align: u64,
    /// The size of an `i64`.
    pub i64_size: u64,
    /// The alignment of an `i64`.
    pub i64_align: u64,
    /// The size of a `u128`.
    pub u128_size: u64,
    /// The alignment of a `u128`.
    pub u128_align: u64,
    /// The size of an `i128`.
    pub i128_size: u64,
    /// The alignment of an `i128`.
    pub i128_align: u64,
    /// The size of a `f32`.
    pub f32_size: u64,
    /// The alignment of a `f32`.
    pub f32_align: u64,
    /// The size of a `f64`.
    pub f64_size: u64,
    /// The alignment of a `f64`.
    pub f64_align: u64,
}

/// The width of a pointer, in bytes, on each architecture: 4 on 32-bit x86 and
/// ARM, 8 on x86_64 and AArch64, and the x86_64 width on every other one.
pub open spec fn pointer_width(arch: Arch) -> u64 {
    match arch {
        Arch::X86 => 4,
        Arch::Arm => 4,
        _ => 8,
    }
}

impl DataLayout {
    /// The layout of a target whose pointers take `pointer_size` bytes: pointers,
    /// `usize` and `isize` have that size and alignment, every other primitive
    /// its natural one.
    pub open spec fn with_pointer_size(pointer_size: u64) -> DataLayout {
        DataLayout {
            pointer_size,
            pointer_align: pointer_size,
            usize_size: pointer_size,
            usize_align: pointer_size,
            isize_size: pointer_size,
            isize_align: pointer_size,
            u8_size: 1,
            u8_align: 1,
            i8_size: 1,
            i8_align: 1,
            u16_size: 2,
            u16_align: 2,
            i16_size: 2,
            i16_align: 2,
            u32_size: 4,
            u32_align: 4,
            i32_size: 4,
            i32_align: 4,
            u64_size: 8,
            u64_align: 8,
            i64_size: 8,
            i64_align: 8,
            u128_size: 16,
            u128_align: 16,
            i128_size: 16,
            i128_align: 16,
            f32_size: 4,
            f32_align: 4,
            f64_size: 8,
            f64_align: 8,
        }
    }

    /// The text of the layout in a module header: `p:`, the pointer size, `:`
    /// and the pointer alignment, both in bytes.
    pub open spec fn text(self) -> Seq<char> {
        "p:"@ + decimal(self.pointer_size as nat) + ":"@ + decimal(self.pointer_align as nat)
    }

    /// Creates the layout of a target whose pointers take `pointer_size` bytes.
    pub fn new(pointer_size: u64) -> (r: Self)
        ensures
            r == Self::with_pointer_size(pointer_size),
    {
        Self {
            pointer_size,
            pointer_align: pointer_size,
            usize_size: pointer_size,
            usize_align: pointer_size,
            isize_size: pointer_size,
            isize_align: pointer_size,
            u8_size: 1,
            u8_align: 1,
            i8_size: 1,
            i8_align: 1,
            u16_size: 2,
            u16_align: 2,
            i16_size: 2,
            i16_align: 2,
            u32_size: 4,
            u32_align: 4,
            i32_size: 4,
            i32_align: 4,
            u64_size: 8,
            u64_align: 8,
            i64_size: 8,
            i64_align: 8,
            u128_size: 16,
            u128_align: 16,
            i128_size: 16,
            i128_align: 16,
            f32_size: 4,
            f32_align: 4,
            f64_size: 8,
            f64_align: 8,
        }
    }

    /// The layout of the architecture that `triple` names.
    pub fn from_triple(triple: &TargetTriple) -> (r: Self)
        ensures
            r == Self::with_pointer_size(pointer_width(triple.arch)),
    {
        match triple.arch() {
            Arch::X86_64 => Self::new_x86_64(),
            Arch::X86 => Self::new_x86(),
            Arch::Arm => Self::new_arm(),
            Arch::Aarch64 => Self::new_aarch64(),
            _ => Self::default(),
        }
    }

    /// The layout of x86_64: 8-byte pointers.
    pub fn new_x86_64() -> (r: Self)
        ensures
            r == Self::with_pointer_size(8),
    {
        Self::new(8)
    }

    /// The layout of 32-bit x86: 4-byte pointers.
    pub fn new_x86() -> (r: Self)
        ensures
            r == Self::with_pointer_size(4),
    {
        Self::new(4)
    }

    /// The layout of 32-bit ARM: 4-byte pointers.
    pub fn new_arm() -> (r: Self)
        ensures
            r == Self::with_pointer_size(4),
    {
        Self::new(4)
    }

    /// The layout of AArch64: 8-byte pointers.
    pub fn new_aarch64() -> (r: Self)
        ensures
            r == Self::with_pointer_size(8),
    {
        Self::new(8)
    }

    /// The layout used where the architecture has none of its own: that of x86_64.
    pub fn default() -> (r: Self)
        ensures
            r == Self::with_pointer_size(8),
    {
        Self::new_x86_64()
    }

    /// Renders the layout for a module header.
    pub fn to_string(&self) -> (r: String)
        ensures
            r@ == self.text(),
    {
        let mut out = "p:".to_owned();
        push_decimal(&mut out, self.pointer_size);
        out.append(":");
        push_decimal(&mut out, self.pointer_align);
        out
    }

    /// Returns the size of a pointer.
    pub fn pointer_size(&self) -> (r: u64)
        ensures
            r == self.pointer_size,
    {
        self.pointer_size
    }

    /// Returns the alignment of a pointer.
    pub fn pointer_align(&self) -> (r: u64)
        ensures
            r == self.pointer_align,
    {
        self.pointer_align
    }

    /// Returns the size of a `usize`.
    pub fn usize_size(&self) -> (r: u64)
        ensures
            r == self.usize_size,
    {
        self.usize_size
    }

    /// Returns the alignment of a `usize`.
    pub fn usize_align(&self) -> (r: u64)
        ensures
            r == self.usize_align,
    {
        self.usize_align
    }

    /// Returns the size of an `isize`.
    pub fn isize_size(&self) -> (r: u64)
        ensures
            r == self.isize_size,
    {
        self.isize_size
    }

    /// Returns the alignment of an `isize`.
    pub fn isize_align(&self) -> (r: u64)
        ensures
            r == self.isize_align,
    {
        self.isize_align
    }

    /// Returns the size of a `u8`.
    pub fn u8_size(&self) -> (r: u64)
        ensures
            r == self.u8_size,
    {
        self.u8_size
    }

    /// Returns the alignment of a `u8`.
    pub fn u8_align(&self) -> (r: u64)
        ensures
            r == self.u8_align,
    {
        self.u8_align
    }

    /// Returns the size of an `i8`.
    pub fn i8_size(&self) -> (r: u64)
        ensures
            r == self.i8_size,
    {
        self.i8_size
    }

    /// Returns the alignment of an `i8`.
    pub fn i8_align(&self) -> (r: u64)
        ensures
            r == self.i8_align,
    {
        self.i8_align
    }

    /// Returns the size of a `u16`.
    pub fn u16_size(&self) -> (r: u64)
        ensures
            r == self.u16_size,
    {
        self.u16_size
    }

    /// Returns the alignment of a `u16`.
    pub fn u16_align(&self) -> (r: u64)
        ensures
            r == self.u16_align,
    {
        self.u16_align
    }

    /// Returns the size of an `i16`.
    pub fn i16_size(&self) -> (r: u64)
        ensures
            r == self.i16_size,
    {
        self.i16_size
    }

    /// Returns the alignment of an `i16`.
    pub fn i16_align(&self) -> (r: u64)
        ensures
            r == self.i16_align,
    {
        self.i16_align
    }

    /// Returns the size of a `u32`.
    pub fn u32_size(&self) -> (r: u64)
        ensures
            r == self.u32_size,
    {
        self.u32_size
    }

    /// Returns the alignment of a `u32`.
    pub fn u32_align(&self) -> (r: u64)
        ensures
            r == self.u32_align,
    {
        self.u32_align
    }

    /// Returns the size of an `i32`.
    pub fn i32_size(&self) -> (r: u64)
        ensures
            r == self.i32_size,
    {
        self.i32_size
    }

    /// Returns the alignment of an `i32`.
    pub fn i32_align(&self) -> (r: u64)
        ensures
            r == self.i32_align,
    {
        self.i32_align
    }

    /// Returns the size of a `u64`.
    pub fn u64_size(&self) -> (r: u64)
        ensures
            r == self.u64_size,
    {
        self.u64_size
    }

    /// Returns the alignment of a `u64`.
    pub fn u64_align(&self) -> (r: u64)
        ensures
            r == self.u64_align,
    {
        self.u64_align
    }

    /// Returns the size of an `i64`.
    pub fn i64_size(&self) -> (r: u64)
        ensures
            r == self.i64_size,
    {
        self.i64_size
    }

    /// Returns the alignment of an `i64`.
    pub fn i64_align(&self) -> (r: u64)
        ensures
            r == self.i64_align,
    {
        self.i64_align
    }

    /// Returns the size of a `u128`.
    pub fn u128_size(&self) -> (r: u64)
        ensures
            r == self.u128_size,
    {
        self.u128_size
    }

    /// Returns the alignment of a `u128`.
    pub fn u128_align(&self) -> (r: u64)
        ensures
            r == self.u128_align,
    {
        self.u128_align
    }

    /// Returns the size of an `i128`.
    pub fn i128_size(&self) -> (r: u64)
        ensures
            r == self.i128_size,
    {
        self.i128_size
    }

    /// Returns the alignment of an `i128`.
    pub fn i128_align(&self) -> (r: u64)
        ensures
            r == self.i128_align,
    {
        self.i128_align
    }

    /// Returns the size of a `f32`.
    pub fn f32_size(&self) -> (r: u64)
        ensures
            r == self.f32_size,
    {
        self.f32_size
    }

    /// Returns the alignment of a `f32`.
    pub fn f32_align(&self) -> (r: u64)
        ensures
            r == self.f32_align,
    {
        self.f32_align
    }

    /// Returns the size of a `f64`.
    pub fn f64_size(&self) -> (r: u64)
        ensures
            r == self.f64_size,
    {
        self.f64_size
    }

    /// Returns the alignment of a `f64`.
    pub fn f64_align(&self) -> (r: u64)
        ensures
            r == self.f64_align,
    {
        self.f64_align
    }
}

} // verus!
