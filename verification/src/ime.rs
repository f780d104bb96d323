//! An IME composition string and a candidate list

use crate::geometry::PhysicalPosition;
use crate::text::{string_from_utf16_lossy, utf16_lossy};
use crate::window::{Rect, WindowHandle};
use vstd::prelude::*;

verus! {

pub const GCS_COMPSTR: u32 = 0x0008;
pub const GCS_COMPATTR: u32 = 0x0010;
pub const GCS_RESULTSTR: u32 = 0x0800;
pub const ISC_SHOWUICOMPOSITIONWINDOW: u32 = 0x8000_0000;
pub const ISC_SHOWUICANDIDATEWINDOW: u32 = 0x0000_0001;
pub const ISC_SHOWUIALLCANDIDATEWINDOW: u32 = 0x0000_000F;
pub const IMM_ERROR_NODATA: i32 = -1;
pub const IMM_ERROR_GENERAL: i32 = -2;
pub const IACE_CHILDREN: u32 = 0x0001;
pub const IACE_DEFAULT: u32 = 0x0010;
pub const IACE_IGNORENOCONTEXT: u32 = 0x0020;
pub const ATTR_INPUT: u8 = 0x00;
pub const ATTR_TARGET_CONVERTED: u8 = 0x01;
pub const ATTR_CONVERTED: u8 = 0x02;
pub const ATTR_TARGET_NOTCONVERTED: u8 = 0x03;
pub const ATTR_INPUT_ERROR: u8 = 0x04;
pub const ATTR_FIXEDCONVERTED: u8 = 0x05;
pub const CFS_POINT: u32 = 0x0002;
pub const CFS_CANDIDATEPOS: u32 = 0x0040;
pub const CFS_EXCLUDE: u32 = 0x0080;

/// The length in bytes of the fixed part of a candidate list, before its
/// table of offsets.
pub const CANDIDATE_HEADER_LEN: usize = 24;

/// Describes composition character attributes.
#[derive(Clone, Copy, PartialEq, Eq, Structural, Debug)]
pub enum Attribute {
    Input,
    TargetConverted,
    Converted,
    TargetNotConverted,
    Error,
    FixedConverted,
}

/// A composition character and a composition attribute.
#[derive(Clone, Copy, PartialEq, Eq, Structural, Debug)]
pub struct CompositionChar {
    pub ch: char,
    pub attr: Attribute,
}

/// A composition string.
#[derive(Debug)]
pub struct Composition {
    chars: Vec<CompositionChar>,
}

/// A character with its attribute.
pub open spec fn composition_char(ch: char, attr: Attribute) -> CompositionChar {
    CompositionChar { ch, attr }
}

/// The smaller of two lengths.
pub open spec fn shorter(a: nat, b: nat) -> nat {
    if a <= b {
        a
    } else {
        b
    }
}

/// The characters of a string, each with the attribute at its place; as many
/// as the shorter of the two holds.
pub open spec fn zip_attributes(s: Seq<char>, attrs: Seq<Attribute>) -> Seq<CompositionChar> {
    zip_prefix(s, attrs, shorter(s.len(), attrs.len()))
}

/// The first `n` characters of a string, each with the attribute at its place.
pub open spec fn zip_prefix(s: Seq<char>, attrs: Seq<Attribute>, n: nat) -> Seq<CompositionChar>
    decreases n,
{
    if n == 0 {
        Seq::empty()
    } else {
        zip_prefix(s, attrs, (n - 1) as nat).push(composition_char(s[n - 1], attrs[n - 1]))
    }
}

/// A zipped prefix has the length asked for, and holds at each place the
/// character and the attribute of that place.
pub proof fn lemma_zip_prefix(s: Seq<char>, attrs: Seq<Attribute>, n: nat)
    ensures
        zip_prefix(s, attrs, n).len() == n,
        forall|i: int|
            0 <= i < n ==> (#[trigger] zip_prefix(s, attrs, n)[i]).ch == s[i] && zip_prefix(
                s,
                attrs,
                n,
            )[i].attr == attrs[i],
    decreases n,
{
    if n > 0 {
        lemma_zip_prefix(s, attrs, (n - 1) as nat);
    }
}

impl View for Composition {
    type V = Seq<CompositionChar>;

    closed spec fn view(&self) -> Seq<CompositionChar> {
        self.chars@
    }
}

impl Composition {
    pub fn new(s: String, attrs: Vec<Attribute>) -> (r: Self)
        ensures
            r@ == zip_attributes(s@, attrs@),
    {
        let text: &str = s.as_str();
        let n: usize = text.unicode_len();
        let m: usize = if n <= attrs.len() {
            n
        } else {
            attrs.len()
        };
        let mut chars: Vec<CompositionChar> = Vec::new();
        let mut i: usize = 0;
        while i < m
            invariant
                i <= m,
                m <= n,
                m <= attrs@.len(),
                n == text@.len(),
                text@ == s@,
                chars@ == zip_prefix(s@, attrs@, i as nat),
            decreases m - i,
        {
            chars.push(CompositionChar { ch: text.get_char(i), attr: attrs[i] });
            i += 1;
        }
        Self { chars }
    }

    pub fn is_empty(&self) -> (r: bool)
        ensures
            r == (self@.len() == 0),
    {
        self.chars.len() == 0
    }

    pub fn len(&self) -> (n: usize)
        ensures
            n == self@.len(),
    {
        self.chars.len()
    }

    /// The characters in order.
    pub fn iter(&self) -> (r: &Vec<CompositionChar>)
        ensures
            r@ == self@,
    {
        &self.chars
    }

    /// The character at a place.
    pub fn index(&self, index: usize) -> (r: &CompositionChar)
        requires
            index < self@.len(),
        ensures
            *r == self@[index as int],
    {
        &self.chars[index]
    }

    /// Gives the characters up.
    pub fn into_iter(self) -> (r: Vec<CompositionChar>)
        ensures
            r@ == self@,
    {
        self.chars
    }
}

/// A candidate list.
#[derive(Debug)]
pub struct CandidateList {
    list: Vec<String>,
    selection: usize,
}

impl CandidateList {
    /// The candidates in order.
    pub closed spec fn entries(&self) -> Seq<Seq<char>> {
        self.list@.map_values(|s: String| s@)
    }

    /// The place of the selected candidate.
    pub closed spec fn selected(&self) -> nat {
        self.selection as nat
    }

    /// The selected candidate is one of the list.
    pub open spec fn has_selection(&self) -> bool {
        self.selected() < self.entries().len()
    }

    pub fn new(list: Vec<String>, selection: usize) -> (r: Self)
        ensures
            r.entries() == list@.map_values(|s: String| s@),
            r.selected() == selection,
    {
        Self { list, selection }
    }

    pub fn is_empty(&self) -> (r: bool)
        ensures
            r == (self.entries().len() == 0),
    {
        self.list.len() == 0
    }

    pub fn len(&self) -> (n: usize)
        ensures
            n == self.entries().len(),
    {
        self.list.len()
    }

    /// The candidates in order.
    pub fn iter(&self) -> (r: &Vec<String>)
        ensures
            r@.map_values(|s: String| s@) == self.entries(),
    {
        &self.list
    }

    /// The selected place and the candidate that stands there. The selected
    /// candidate must be one of the list.
    pub fn selection(&self) -> (r: (usize, &str))
        requires
            self.has_selection(),
        ensures
            r.0 == self.selected(),
            r.1@ == self.entries()[r.0 as int],
    {
        (self.selection, self.list[self.selection].as_str())
    }

    /// Tells whether the selected candidate is one of the list.
    pub fn selection_is_listed(&self) -> (r: bool)
        ensures
            r == self.has_selection(),
    {
        self.selection < self.list.len()
    }

    /// The candidate at a place.
    pub fn index(&self, index: usize) -> (r: &str)
        requires
            index < self.entries().len(),
        ensures
            r@ == self.entries()[index as int],
    {
        self.list[index].as_str()
    }
}

/// The attribute that a byte of the native attribute buffer stands for.
pub open spec fn attribute_of(v: u8) -> Option<Attribute> {
    if v == ATTR_INPUT {
        Some(Attribute::Input)
    } else if v == ATTR_TARGET_CONVERTED {
        Some(Attribute::TargetConverted)
    } else if v == ATTR_CONVERTED {
        Some(Attribute::Converted)
    } else if v == ATTR_TARGET_NOTCONVERTED {
        Some(Attribute::TargetNotConverted)
    } else if v == ATTR_INPUT_ERROR {
        Some(Attribute::Error)
    } else if v == ATTR_FIXEDCONVERTED {
        Some(Attribute::FixedConverted)
    } else {
        None
    }
}

/// Tells which attribute a byte of the native attribute buffer stands for.
pub fn as_attribute(v: u8) -> (r: Option<Attribute>)
    ensures
        r == attribute_of(v),
{
    match v {
        ATTR_INPUT => Some(Attribute::Input),
        ATTR_TARGET_CONVERTED => Some(Attribute::TargetConverted),
        ATTR_CONVERTED => Some(Attribute::Converted),
        ATTR_TARGET_NOTCONVERTED => Some(Attribute::TargetNotConverted),
        ATTR_INPUT_ERROR => Some(Attribute::Error),
        ATTR_FIXEDCONVERTED => Some(Attribute::FixedConverted),
        _ => None,
    }
}

/// Every byte stands for an attribute.
pub open spec fn all_attributes(bytes: Seq<u8>) -> bool {
    forall|i: int| 0 <= i < bytes.len() ==> attribute_of(#[trigger] bytes[i]) is Some
}

/// The attributes that a native attribute buffer holds, one for each byte;
/// nothing where a byte stands for no attribute.
pub fn decode_attributes(bytes: &[u8]) -> (r: Option<Vec<Attribute>>)
    ensures
        r is Some <==> all_attributes(bytes@),
        r matches Some(attrs) ==> attrs@.len() == bytes@.len() && forall|i: int|
            0 <= i < bytes@.len() ==> attribute_of(bytes@[i]) == Some(#[trigger] attrs@[i]),
{
    let mut attrs: Vec<Attribute> = Vec::new();
    let mut i: usize = 0;
    while i < bytes.len()
        invariant
            i <= bytes@.len(),
            attrs@.len() == i,
            forall|k: int| 0 <= k < i ==> attribute_of(bytes@[k]) == Some(#[trigger] attrs@[k]),
        decreases bytes@.len() - i,
    {
        match as_attribute(bytes[i]) {
            Some(a) => {
                attrs.push(a);
            },
            None => {
                return None;
            },
        }
        i += 1;
    }
    proof {
        assert forall|k: int| 0 <= k < bytes@.len() implies attribute_of(
            #[trigger] bytes@[k],
        ) is Some by {
            assert(attribute_of(bytes@[k]) == Some(attrs@[k]));
        }
    }
    Some(attrs)
}

/// The 16-bit value that two bytes write, the low byte first.
pub open spec fn le_u16(lo: u8, hi: u8) -> u16 {
    (lo + hi * 256) as u16
}

/// The 32-bit value that four bytes at a place write, the lowest byte first.
pub open spec fn le_u32(bytes: Seq<u8>, at: int) -> u32 {
    (bytes[at] + bytes[at + 1] * 0x100 + bytes[at + 2] * 0x1_0000 + bytes[at + 3]
        * 0x100_0000) as u32
}

/// The 16-bit value that two bytes at a place write, the low byte first.
pub open spec fn le_u16_at(bytes: Seq<u8>, at: int) -> u16 {
    le_u16(bytes[at], bytes[at + 1])
}

/// The UTF-16 code units that a buffer of bytes holds, each written low byte
/// first; a byte left over at the end is passed over.
pub open spec fn utf16_units(bytes: Seq<u8>) -> Seq<u16> {
    Seq::new((bytes.len() / 2) as nat, |i: int| le_u16_at(bytes, 2 * i))
}

fn read_u16(bytes: &[u8], at: usize) -> (r: u16)
    requires
        at + 1 < bytes@.len(),
    ensures
        r == le_u16_at(bytes@, at as int),
{
    bytes[at] as u16 + (bytes[at + 1] as u16) * 256
}

fn read_u32(bytes: &[u8], at: usize) -> (r: u32)
    requires
        at + 3 < bytes@.len(),
    ensures
        r == le_u32(bytes@, at as int),
{
    bytes[at] as u32 + (bytes[at + 1] as u32) * 0x100 + (bytes[at + 2] as u32) * 0x1_0000 + (
    bytes[at + 3] as u32) * 0x100_0000
}

/// Reads the UTF-16 code units that a buffer of bytes holds.
pub fn read_utf16_units(bytes: &[u8]) -> (r: Vec<u16>)
    ensures
        r@ == utf16_units(bytes@),
{
    let n: usize = bytes.len() / 2;
    let mut units: Vec<u16> = Vec::new();
    let mut i: usize = 0;
    while i < n
        invariant
            i <= n,
            n == bytes@.len() / 2,
            bytes@.len() <= usize::MAX,
            units@ == utf16_units(bytes@).subrange(0, i as int),
        decreases n - i,
    {
        units.push(read_u16(bytes, 2 * i));
        proof {
            assert(units@ =~= utf16_units(bytes@).subrange(0, i + 1));
        }
        i += 1;
    }
    proof {
        assert(units@ =~= utf16_units(bytes@));
    }
    units
}

/// What the native layer holds of a composition: one of its strings, or the
/// attributes of its characters.
pub enum CompositionString {
    CompStr(String),
    CompAttr(Vec<Attribute>),
    ResultStr(String),
}

/// What the native layer is asked to do with an input context and a window.
#[derive(Clone, Copy, PartialEq, Eq, Structural, Debug)]
pub struct Association {
    pub hwnd: WindowHandle,
    pub himc: isize,
    pub flags: u32,
}

/// The input context that a window owns.
#[derive(Clone, Copy, PartialEq, Eq, Structural, Debug)]
pub struct ImmContext {
    pub hwnd: WindowHandle,
    pub himc: isize,
}

impl ImmContext {
    /// Holds the input context that was made for a window, and says how it is
    /// bound to the window and its children.
    pub fn new(hwnd: WindowHandle, himc: isize) -> (r: (Self, Association))
        ensures
            r.0 == (ImmContext { hwnd, himc }),
            r.1 == (Association { hwnd, himc, flags: IACE_CHILDREN }),
    {
        (Self { hwnd, himc }, Association { hwnd, himc, flags: IACE_CHILDREN })
    }

    /// Binds the context to the window and its children again.
    pub fn enable(&self) -> (r: Association)
        ensures
            r == (Association { hwnd: self.hwnd, himc: self.himc, flags: IACE_CHILDREN }),
    {
        Association { hwnd: self.hwnd, himc: self.himc, flags: IACE_CHILDREN }
    }

    /// Takes every context from the window.
    pub fn disable(&self) -> (r: Association)
        ensures
            r == (Association { hwnd: self.hwnd, himc: 0, flags: IACE_IGNORENOCONTEXT }),
    {
        Association { hwnd: self.hwnd, himc: 0, flags: IACE_IGNORENOCONTEXT }
    }

    /// Gives the window its default context back; the context that is
    /// returned is then to be destroyed.
    pub fn release(self) -> (r: (Association, isize))
        ensures
            r.0 == (Association { hwnd: self.hwnd, himc: 0, flags: IACE_DEFAULT }),
            r.1 == self.himc,
    {
        (Association { hwnd: self.hwnd, himc: 0, flags: IACE_DEFAULT }, self.himc)
    }
}

/// Where the composition window is put.
#[derive(Clone, Copy, PartialEq, Eq, Structural, Debug)]
pub struct CompositionForm {
    pub style: u32,
    pub x: i32,
    pub y: i32,
    pub area: Rect,
}

/// Where a candidate window is put.
#[derive(Clone, Copy, PartialEq, Eq, Structural, Debug)]
pub struct CandidateForm {
    pub index: u32,
    pub style: u32,
    pub x: i32,
    pub y: i32,
    pub area: Rect,
}

/// The input context that is in use on a window while a message is handled.
#[derive(Clone, Copy, PartialEq, Eq, Structural, Debug)]
pub struct Imc {
    pub hwnd: WindowHandle,
    pub himc: isize,
}

/// The form that puts the composition window at a point.
pub open spec fn composition_form_at(x: i32, y: i32) -> CompositionForm {
    CompositionForm {
        style: CFS_POINT,
        x,
        y,
        area: Rect { left: 0, top: 0, right: 0, bottom: 0 },
    }
}

/// The form that puts the candidate window at a point.
pub open spec fn candidate_form_at(x: i32, y: i32) -> CandidateForm {
    CandidateForm {
        index: 0,
        style: CFS_CANDIDATEPOS,
        x,
        y,
        area: Rect { left: 0, top: 0, right: 0, bottom: 0 },
    }
}

/// The form that keeps the candidate window off a point.
pub open spec fn candidate_exclusion_at(x: i32, y: i32) -> CandidateForm {
    CandidateForm {
        index: 0,
        style: CFS_EXCLUDE,
        x,
        y,
        area: Rect { left: x, top: y, right: x, bottom: y },
    }
}

/// The forms that put the candidate window at a point: the position, and
/// after it, unless an exclusion is wanted elsewhere, the form that keeps the
/// window off the point itself.
pub open spec fn candidate_forms(x: i32, y: i32, enable_exclude_rect: bool) -> Seq<CandidateForm> {
    if enable_exclude_rect {
        seq![candidate_form_at(x, y)]
    } else {
        seq![candidate_form_at(x, y), candidate_exclusion_at(x, y)]
    }
}

/// The length in bytes of the buffer that takes one part of a composition,
/// from what the native layer gave for the length. There is none where it
/// reported that there is no data, or that it failed.
pub fn composition_buffer_len(byte_len: i32) -> (r: Option<usize>)
    ensures
        r == if byte_len < 0 {
            None
        } else {
            Some(byte_len as usize)
        },
{
    if byte_len < 0 {
        return None;
    }
    Some(byte_len as usize)
}

/// Decodes the candidate list that the native layer wrote, from the length
/// that it announced, what it gave back when it wrote the list, and the bytes
/// that it wrote. Nothing where either number is zero or the list cannot be
/// decoded.
pub fn candidate_list(size: u32, written: u32, buf: &[u8]) -> (r: Option<CandidateList>)
    ensures
        r is Some <==> size != 0 && written != 0 && candidates_well_formed(buf@),
        r matches Some(list) ==> list.entries() == candidate_entries(buf@) && list.selected()
            == candidate_selection(buf@) && list.entries().len() == candidate_count(buf@),
{
    if size == 0 || written == 0 {
        return None;
    }
    decode_candidate_list(buf)
}

/// The bits of the message about an input context that ask for the windows
/// which are not to be shown: the bit of the composition window, and the four
/// bits of the candidate windows.
pub open spec fn hidden_ui_bits(show_composition: bool, show_candidate: bool) -> u32 {
    (if show_composition {
        0u32
    } else {
        ISC_SHOWUICOMPOSITIONWINDOW
    }) | (if show_candidate {
        0u32
    } else {
        ISC_SHOWUIALLCANDIDATEWINDOW
    })
}

/// The second parameter with which the message about an input context is
/// passed on: the bits that ask for windows which are not to be shown are
/// cleared, and every other bit is kept.
pub open spec fn masked_context(lparam: isize, show_composition: bool, show_candidate: bool)
    -> isize {
    ((lparam as u32) & !hidden_ui_bits(show_composition, show_candidate)) as isize
}

/// Clears, in the second parameter of the message about an input context,
/// the bits that ask for windows which are not to be shown.
pub fn mask_context(lparam: isize, show_composition: bool, show_candidate: bool) -> (r: isize)
    ensures
        r == masked_context(lparam, show_composition, show_candidate),
{
    let hidden: u32 = (if show_composition {
        0u32
    } else {
        ISC_SHOWUICOMPOSITIONWINDOW
    }) | (if show_candidate {
        0u32
    } else {
        ISC_SHOWUIALLCANDIDATEWINDOW
    });
    let low: u32 = #[verifier::truncate]
    (lparam as u32);
    (low & !hidden) as isize
}

/// Masking clears exactly the bits that ask for windows which are not to be
/// shown: none of them is left, every other bit is as it was, and where both
/// windows are shown nothing changes.
pub proof fn lemma_mask_keeps_other_bits(bits: u32, show_composition: bool, show_candidate: bool)
    ensures
        (bits & !hidden_ui_bits(show_composition, show_candidate)) & hidden_ui_bits(
            show_composition,
            show_candidate,
        ) == 0,
        (bits & !hidden_ui_bits(show_composition, show_candidate)) & !hidden_ui_bits(
            show_composition,
            show_candidate,
        ) == bits & !hidden_ui_bits(show_composition, show_candidate),
        show_composition && show_candidate ==> bits & !hidden_ui_bits(
            show_composition,
            show_candidate,
        ) == bits,
        !show_composition ==> (bits & !hidden_ui_bits(show_composition, show_candidate))
            & ISC_SHOWUICOMPOSITIONWINDOW == 0,
        !show_candidate ==> (bits & !hidden_ui_bits(show_composition, show_candidate))
            & ISC_SHOWUIALLCANDIDATEWINDOW == 0,
        show_composition ==> (bits & !hidden_ui_bits(show_composition, show_candidate))
            & ISC_SHOWUICOMPOSITIONWINDOW == bits & ISC_SHOWUICOMPOSITIONWINDOW,
        show_candidate ==> (bits & !hidden_ui_bits(show_composition, show_candidate))
            & ISC_SHOWUIALLCANDIDATEWINDOW == bits & ISC_SHOWUIALLCANDIDATEWINDOW,
{
    let h = hidden_ui_bits(show_composition, show_candidate);
    assert((bits & !h) & h == 0) by (bit_vector);
    assert((bits & !h) & !h == bits & !h) by (bit_vector);
    assert(0u32 | 0u32 == 0u32) by (bit_vector);
    assert(bits & !0u32 == bits) by (bit_vector);
    assert((bits & !(0x8000_0000u32 | 0u32)) & 0x8000_0000u32 == 0) by (bit_vector);
    assert((bits & !(0x8000_0000u32 | 0xFu32)) & 0x8000_0000u32 == 0) by (bit_vector);
    assert((bits & !(0u32 | 0xFu32)) & 0xFu32 == 0) by (bit_vector);
    assert((bits & !(0x8000_0000u32 | 0xFu32)) & 0xFu32 == 0) by (bit_vector);
    assert((bits & !(0u32 | 0xFu32)) & 0x8000_0000u32 == bits & 0x8000_0000u32) by (bit_vector);
    assert((bits & !(0x8000_0000u32 | 0u32)) & 0xFu32 == bits & 0xFu32) by (bit_vector);
}

/// The string that a reply of the native layer holds: nothing where the
/// native layer has reported that there is no data, or that it failed;
/// nothing where the decoded string is empty.
pub open spec fn composition_text(byte_len: i32, data: Seq<u8>) -> Option<Seq<char>> {
    if byte_len == IMM_ERROR_NODATA || byte_len == IMM_ERROR_GENERAL {
        None
    } else if utf16_lossy(utf16_units(data)).len() == 0 {
        None
    } else {
        Some(utf16_lossy(utf16_units(data)))
    }
}

/// The attributes that a reply of the native layer holds: nothing where the
/// native layer has reported that there is no data, or that it failed, or
/// where a byte stands for no attribute.
pub open spec fn composition_attributes(byte_len: i32, data: Seq<u8>) -> Option<Seq<Attribute>> {
    if byte_len == IMM_ERROR_NODATA || byte_len == IMM_ERROR_GENERAL || !all_attributes(data) {
        None
    } else {
        Some(Seq::new(data.len(), |i: int| attribute_of(data[i]).unwrap()))
    }
}

impl Imc {
    /// Holds the input context that the native layer gave for a window.
    pub fn get(hwnd: WindowHandle, himc: isize) -> (r: Self)
        ensures
            r == (Imc { hwnd, himc }),
    {
        Self { hwnd, himc }
    }

    /// Says where the composition window is put.
    pub fn set_composition_window_position(&self, position: PhysicalPosition<i32>) -> (r:
        CompositionForm)
        ensures
            r == composition_form_at(position.x, position.y),
    {
        CompositionForm {
            style: CFS_POINT,
            x: position.x,
            y: position.y,
            area: Rect { left: 0, top: 0, right: 0, bottom: 0 },
        }
    }

    /// Says where the candidate window is put. The forms are handed to the
    /// native layer in order.
    pub fn set_candidate_window_position(
        &self,
        position: PhysicalPosition<i32>,
        enable_exclude_rect: bool,
    ) -> (r: Vec<CandidateForm>)
        ensures
            r@ == candidate_forms(position.x, position.y, enable_exclude_rect),
    {
        let mut forms: Vec<CandidateForm> = Vec::new();
        forms.push(
            CandidateForm {
                index: 0,
                style: CFS_CANDIDATEPOS,
                x: position.x,
            y: position.y,
                area: Rect { left: 0, top: 0, right: 0, bottom: 0 },
            },
        );
        if !enable_exclude_rect {
            forms.push(
                CandidateForm {
                    index: 0,
                    style: CFS_EXCLUDE,
                    x: position.x,
            y: position.y,
                    area: Rect {
                        left: position.x,
                        top: position.y,
                        right: position.x,
                        bottom: position.y,
                    },
                },
            );
        }
        proof {
            assert(forms@ =~= candidate_forms(position.x, position.y, enable_exclude_rect));
        }
        forms
    }

    /// Decodes the candidate list that the native layer wrote. `size` is the
    /// length it announced, `written` what it gave back when it wrote the
    /// list, `buf` the bytes it wrote. Nothing where either number is zero or
    /// the list cannot be decoded.
    pub fn get_candidate_list(&self, size: u32, written: u32, buf: &[u8]) -> (r: Option<
        CandidateList,
    >)
        ensures
            r is Some <==> size != 0 && written != 0 && candidates_well_formed(buf@),
            r matches Some(list) ==> list.entries() == candidate_entries(buf@) && list.selected()
                == candidate_selection(buf@) && list.entries().len() == candidate_count(buf@),
    {
        candidate_list(size, written, buf)
    }

    /// Decodes what the native layer replied when it was asked for one part
    /// of the composition. `byte_len` is what it gave for the length, `data`
    /// the bytes it then wrote.
    pub fn get_composition_string(&self, index: u32, byte_len: i32, data: &[u8]) -> (r: Option<
        CompositionString,
    >)
        ensures
            index == GCS_COMPSTR ==> match composition_text(byte_len, data@) {
                Some(text) => r matches Some(CompositionString::CompStr(s)) && s@ == text,
                None => r is None,
            },
            index == GCS_RESULTSTR ==> match composition_text(byte_len, data@) {
                Some(text) => r matches Some(CompositionString::ResultStr(s)) && s@ == text,
                None => r is None,
            },
            index == GCS_COMPATTR ==> match composition_attributes(byte_len, data@) {
                Some(attrs) => r matches Some(CompositionString::CompAttr(a)) && a@ == attrs,
                None => r is None,
            },
            index != GCS_COMPSTR && index != GCS_RESULTSTR && index != GCS_COMPATTR ==> r is None,
    {
        if index == GCS_COMPSTR {
            match composition_string(byte_len, data) {
                Some(s) => Some(CompositionString::CompStr(s)),
                None => None,
            }
        } else if index == GCS_COMPATTR {
            match composition_attrs(byte_len, data) {
                Some(a) => Some(CompositionString::CompAttr(a)),
                None => None,
            }
        } else if index == GCS_RESULTSTR {
            match composition_string(byte_len, data) {
                Some(s) => Some(CompositionString::ResultStr(s)),
                None => None,
            }
        } else {
            None
        }
    }
}

/// The number of candidates that a candidate list announces.
pub open spec fn candidate_count(buf: Seq<u8>) -> nat {
    le_u32(buf, 8) as nat
}

/// The place of the selected candidate that a candidate list announces.
pub open spec fn candidate_selection(buf: Seq<u8>) -> nat {
    le_u32(buf, 12) as nat
}

/// The offset in bytes, from the start of the list, at which a candidate's
/// string begins.
pub open spec fn candidate_offset(buf: Seq<u8>, i: int) -> int {
    le_u32(buf, CANDIDATE_HEADER_LEN as int + 4 * i) as int
}

/// The number of code units before the first zero unit of the string that
/// begins at byte `at`, counted from unit `k` on; nothing where the buffer
/// ends before a zero unit.
pub open spec fn terminator_from(buf: Seq<u8>, at: int, k: nat) -> Option<nat>
    decreases buf.len() - at - 2 * k,
{
    if at < 0 || at + 2 * k + 2 > buf.len() {
        None
    } else if le_u16_at(buf, at + 2 * k) == 0 {
        Some(k)
    } else {
        terminator_from(buf, at, k + 1)
    }
}

/// The code units of the string that begins at byte `at` and has `n` units.
pub open spec fn units_at(buf: Seq<u8>, at: int, n: nat) -> Seq<u16> {
    Seq::new(n, |i: int| le_u16_at(buf, at + 2 * i))
}

/// The string that begins at byte `at` and ends before the first zero unit;
/// nothing where the buffer ends before a zero unit.
pub open spec fn candidate_text(buf: Seq<u8>, at: int) -> Option<Seq<char>> {
    match terminator_from(buf, at, 0) {
        Some(n) => Some(utf16_lossy(units_at(buf, at, n))),
        None => None,
    }
}

/// A candidate list that can be decoded: the header and the table of offsets
/// lie in the buffer, there is at least one candidate, and each candidate's
/// string ends inside the buffer. The selected place is taken as the header
/// gives it, whether it is one of the list or not.
pub open spec fn candidates_well_formed(buf: Seq<u8>) -> bool {
    &&& buf.len() >= CANDIDATE_HEADER_LEN
    &&& candidate_count(buf) > 0
    &&& CANDIDATE_HEADER_LEN + 4 * candidate_count(buf) <= buf.len()
    &&& forall|i: int|
        0 <= i < candidate_count(buf) ==> candidate_text(buf, #[trigger] candidate_offset(buf, i))
            is Some
}

/// The candidates of a list that can be decoded, in the order of the table
/// of offsets.
pub open spec fn candidate_entries(buf: Seq<u8>) -> Seq<Seq<char>> {
    Seq::new(
        candidate_count(buf),
        |i: int| candidate_text(buf, candidate_offset(buf, i)).unwrap(),
    )
}

fn read_candidate(buf: &[u8], at: usize) -> (r: Option<String>)
    ensures
        match candidate_text(buf@, at as int) {
            Some(text) => r matches Some(s) && s@ == text,
            None => r is None,
        },
{
    let mut units: Vec<u16> = Vec::new();
    let mut k: usize = 0;
    loop
        invariant
            units@ == units_at(buf@, at as int, k as nat),
            terminator_from(buf@, at as int, 0) == terminator_from(buf@, at as int, k as nat),
            2 * k <= buf@.len(),
        decreases buf@.len() - 2 * k,
    {
        if at >= buf.len() || (buf.len() - at) / 2 <= k {
            return None;
        }
        let unit: u16 = read_u16(buf, at + 2 * k);
        if unit == 0 {
            let s: String = string_from_utf16_lossy(units.as_slice());
            return Some(s);
        }
        units.push(unit);
        proof {
            assert(units@ =~= units_at(buf@, at as int, (k + 1) as nat));
        }
        k += 1;
    }
}

/// Decodes a candidate list: a header that announces the number of
/// candidates and the selected place, a table with one offset for each
/// candidate, and at each offset a string that ends before a zero unit.
/// Nothing where the list cannot be decoded.
pub fn decode_candidate_list(buf: &[u8]) -> (r: Option<CandidateList>)
    ensures
        r is Some <==> candidates_well_formed(buf@),
        r matches Some(list) ==> list.entries() == candidate_entries(buf@) && list.selected()
            == candidate_selection(buf@) && list.entries().len() == candidate_count(buf@),
{
    if buf.len() < CANDIDATE_HEADER_LEN {
        return None;
    }
    let count: usize = read_u32(buf, 8) as usize;
    let selection: usize = read_u32(buf, 12) as usize;
    if count == 0 {
        return None;
    }
    if (buf.len() - CANDIDATE_HEADER_LEN) / 4 < count {
        return None;
    }
    let mut list: Vec<String> = Vec::new();
    let mut i: usize = 0;
    while i < count
        invariant
            i <= count,
            count == candidate_count(buf@),
            CANDIDATE_HEADER_LEN + 4 * count <= buf@.len(),
            buf@.len() <= usize::MAX,
            list@.len() == i,
            forall|k: int|
                0 <= k < i ==> candidate_text(buf@, #[trigger] candidate_offset(buf@, k)) == Some(
                    list@[k]@,
                ),
        decreases count - i,
    {
        let offset: usize = read_u32(buf, CANDIDATE_HEADER_LEN + 4 * i) as usize;
        match read_candidate(buf, offset) {
            Some(s) => {
                list.push(s);
            },
            None => {
                assert(candidate_text(buf@, candidate_offset(buf@, i as int)) is None);
                return None;
            },
        }
        i += 1;
    }
    let ghost entries = list@.map_values(|s: String| s@);
    proof {
        assert(entries =~= candidate_entries(buf@));
    }
    Some(CandidateList::new(list, selection))
}

/// Decodes the string that a reply of the native layer holds.
pub fn composition_string(byte_len: i32, data: &[u8]) -> (r: Option<String>)
    ensures
        match composition_text(byte_len, data@) {
            Some(text) => r matches Some(s) && s@ == text,
            None => r is None,
        },
{
    if byte_len == IMM_ERROR_NODATA || byte_len == IMM_ERROR_GENERAL {
        return None;
    }
    let units: Vec<u16> = read_utf16_units(data);
    let s: String = string_from_utf16_lossy(units.as_slice());
    if s.as_str().unicode_len() == 0 {
        None
    } else {
        Some(s)
    }
}

/// Decodes the attributes that a reply of the native layer holds.
pub fn composition_attrs(byte_len: i32, data: &[u8]) -> (r: Option<Vec<Attribute>>)
    ensures
        match composition_attributes(byte_len, data@) {
            Some(attrs) => r matches Some(a) && a@ == attrs,
            None => r is None,
        },
{
    if byte_len == IMM_ERROR_NODATA || byte_len == IMM_ERROR_GENERAL {
        return None;
    }
    match decode_attributes(data) {
        Some(a) => {
            proof {
                assert(a@ =~= composition_attributes(byte_len, data@).unwrap());
            }
            Some(a)
        },
        None => None,
    }
}

} // verus!
