use wita::geometry::PhysicalPosition;
use wita::ime::{
    as_attribute, candidate_list, composition_buffer_len, composition_attrs, composition_string, decode_attributes,
    decode_candidate_list, mask_context, read_utf16_units, Association, Attribute, CandidateList,
    Composition, CompositionChar, CompositionString, Imc, ImmContext, CFS_CANDIDATEPOS,
    CFS_EXCLUDE, CFS_POINT, GCS_COMPATTR, GCS_COMPSTR, GCS_RESULTSTR, IACE_CHILDREN,
    IACE_DEFAULT, IACE_IGNORENOCONTEXT, IMM_ERROR_GENERAL, IMM_ERROR_NODATA,
};
use wita::window::{Rect, WindowHandle};

fn utf16_bytes(s: &str) -> Vec<u8> {
    let mut out = Vec::new();
    for u in s.encode_utf16() {
        out.push((u & 0xff) as u8);
        out.push((u >> 8) as u8);
    }
    out
}

fn push_u32(out: &mut Vec<u8>, v: u32) {
    out.extend_from_slice(&v.to_le_bytes());
}

fn candidate_buffer(selection: u32, entries: &[&str]) -> Vec<u8> {
    let count = entries.len() as u32;
    let mut strings: Vec<Vec<u8>> = Vec::new();
    for e in entries {
        let mut b = utf16_bytes(e);
        b.push(0);
        b.push(0);
        strings.push(b);
    }
    let table_end = 24 + 4 * count;
    let mut offsets = Vec::new();
    let mut at = table_end;
    for s in &strings {
        offsets.push(at);
        at += s.len() as u32;
    }
    let mut out = Vec::new();
    push_u32(&mut out, at);
    push_u32(&mut out, 1);
    push_u32(&mut out, count);
    push_u32(&mut out, selection);
    push_u32(&mut out, 0);
    push_u32(&mut out, 9);
    for o in offsets {
        push_u32(&mut out, o);
    }
    for s in strings {
        out.extend_from_slice(&s);
    }
    out
}

#[test]
fn candidate_list_decodes_header_and_strings() {
    let buf = candidate_buffer(1, &["alpha", "\u{3042}\u{3044}", "gamma"]);
    let list = decode_candidate_list(&buf).unwrap();
    assert_eq!(list.len(), 3);
    assert!(!list.is_empty());
    assert_eq!(list.iter().clone(), vec!["alpha", "\u{3042}\u{3044}", "gamma"]);
    let (index, text) = list.selection();
    assert_eq!(index, 1);
    assert_eq!(text, list.index(1));
    assert_eq!(text, "\u{3042}\u{3044}");
    assert_eq!(list.index(0), "alpha");
    assert_eq!(list.index(2), "gamma");
}

#[test]
fn candidate_list_follows_the_offset_table() {
    let mut buf = candidate_buffer(0, &["one", "two"]);
    let first = u32::from_le_bytes([buf[24], buf[25], buf[26], buf[27]]);
    let second = u32::from_le_bytes([buf[28], buf[29], buf[30], buf[31]]);
    buf[24..28].copy_from_slice(&second.to_le_bytes());
    buf[28..32].copy_from_slice(&first.to_le_bytes());
    let list = decode_candidate_list(&buf).unwrap();
    assert_eq!(list.iter().clone(), vec!["two", "one"]);
    assert_eq!(list.selection(), (0, "two"));
}

#[test]
fn candidate_lists_that_cannot_be_decoded() {
    assert!(decode_candidate_list(&[]).is_none());
    assert!(decode_candidate_list(&[0u8; 23]).is_none());
    assert!(decode_candidate_list(&candidate_buffer(0, &[])).is_none());
    let good = candidate_buffer(0, &["a", "b"]);
    assert!(decode_candidate_list(&good).is_some());
    let cut = &good[..good.len() - 2];
    assert!(decode_candidate_list(cut).is_none());
    let mut far = good.clone();
    far[28..32].copy_from_slice(&10_000u32.to_le_bytes());
    assert!(decode_candidate_list(&far).is_none());
    let mut many = good.clone();
    many[8..12].copy_from_slice(&1_000u32.to_le_bytes());
    assert!(decode_candidate_list(&many).is_none());
}

#[test]
fn candidate_list_keeps_the_selection_that_the_header_gives() {
    let list = decode_candidate_list(&candidate_buffer(2, &["a", "b"])).unwrap();
    assert_eq!(list.len(), 2);
    assert_eq!(list.iter().clone(), vec!["a", "b"]);
    assert!(!list.selection_is_listed());
    let list = decode_candidate_list(&candidate_buffer(1, &["a", "b"])).unwrap();
    assert!(list.selection_is_listed());
    assert_eq!(list.selection(), (1, "b"));
}

#[test]
fn candidate_list_needs_both_native_results() {
    let buf = candidate_buffer(0, &["a"]);
    assert!(candidate_list(0, 5, &buf).is_none());
    assert!(candidate_list(5, 0, &buf).is_none());
    assert_eq!(candidate_list(5, 5, &buf).unwrap().selection(), (0, "a"));
    let imc = Imc::get(WindowHandle(1), 2);
    assert!(imc.get_candidate_list(0, 0, &buf).is_none());
    assert_eq!(imc.get_candidate_list(1, 1, &buf).unwrap().len(), 1);
}

#[test]
fn candidate_list_by_hand() {
    let list = CandidateList::new(vec!["x".to_string(), "y".to_string()], 1);
    assert_eq!(list.selection(), (1, "y"));
    assert_eq!(list.len(), 2);
}

#[test]
fn candidate_list_may_be_empty() {
    let list = CandidateList::new(Vec::new(), 0);
    assert!(list.is_empty());
    assert_eq!(list.len(), 0);
    assert!(list.iter().is_empty());
    assert!(!list.selection_is_listed());
    let list = CandidateList::new(vec!["x".to_string()], 0);
    assert!(!list.is_empty());
    assert_eq!(list.len(), 1);
    assert!(list.selection_is_listed());
    assert_eq!(list.selection(), (0, "x"));
}

#[test]
fn candidate_list_with_a_selection_past_its_end() {
    let list = CandidateList::new(vec!["x".to_string(), "y".to_string()], 2);
    assert!(!list.is_empty());
    assert_eq!(list.len(), 2);
    assert!(!list.selection_is_listed());
    assert_eq!(list.index(1), "y");
}

#[test]
fn composition_zips_characters_and_attributes() {
    let c = Composition::new(
        "\u{3042}b".to_string(),
        vec![Attribute::Input, Attribute::TargetConverted, Attribute::Error],
    );
    assert_eq!(c.len(), 2);
    assert!(!c.is_empty());
    assert_eq!(*c.index(0), CompositionChar { ch: '\u{3042}', attr: Attribute::Input });
    assert_eq!(*c.index(1), CompositionChar { ch: 'b', attr: Attribute::TargetConverted });
    assert_eq!(c.iter().len(), 2);
    let c = Composition::new("abc".to_string(), vec![Attribute::Converted]);
    assert_eq!(c.into_iter(), vec![CompositionChar { ch: 'a', attr: Attribute::Converted }]);
    let c = Composition::new(String::new(), vec![Attribute::Converted]);
    assert!(c.is_empty());
    assert_eq!(c.len(), 0);
}

#[test]
fn attributes_of_bytes() {
    assert_eq!(as_attribute(0), Some(Attribute::Input));
    assert_eq!(as_attribute(1), Some(Attribute::TargetConverted));
    assert_eq!(as_attribute(2), Some(Attribute::Converted));
    assert_eq!(as_attribute(3), Some(Attribute::TargetNotConverted));
    assert_eq!(as_attribute(4), Some(Attribute::Error));
    assert_eq!(as_attribute(5), Some(Attribute::FixedConverted));
    assert_eq!(as_attribute(6), None);
    assert_eq!(
        decode_attributes(&[0, 5, 3]),
        Some(vec![Attribute::Input, Attribute::FixedConverted, Attribute::TargetNotConverted])
    );
    assert_eq!(decode_attributes(&[]), Some(vec![]));
    assert_eq!(decode_attributes(&[0, 9]), None);
}

#[test]
fn code_units_are_read_low_byte_first() {
    assert_eq!(read_utf16_units(&[0x42, 0x30, 0x41, 0x00]), vec![0x3042, 0x0041]);
    assert_eq!(read_utf16_units(&[0x42, 0x30, 0x41]), vec![0x3042]);
    assert_eq!(read_utf16_units(&[]), Vec::<u16>::new());
}

#[test]
fn composition_strings_of_native_replies() {
    let data = utf16_bytes("\u{3042}");
    assert_eq!(composition_string(2, &data), Some("\u{3042}".to_string()));
    assert_eq!(composition_string(IMM_ERROR_NODATA, &data), None);
    assert_eq!(composition_string(IMM_ERROR_GENERAL, &data), None);
    assert_eq!(composition_string(0, &[]), None);
    assert_eq!(composition_string(2, &[0x00, 0xD8]), Some("\u{FFFD}".to_string()));
    assert_eq!(composition_attrs(2, &[0, 1]), Some(vec![Attribute::Input, Attribute::TargetConverted]));
    assert_eq!(composition_attrs(IMM_ERROR_NODATA, &[0, 1]), None);
    assert_eq!(composition_attrs(1, &[7]), None);
    assert_eq!(composition_attrs(0, &[]), Some(vec![]));
}

#[test]
fn composition_string_by_index() {
    let imc = Imc::get(WindowHandle(1), 2);
    let data = utf16_bytes("ab");
    match imc.get_composition_string(GCS_COMPSTR, 4, &data) {
        Some(CompositionString::CompStr(s)) => assert_eq!(s, "ab"),
        _ => panic!("no composition string"),
    }
    match imc.get_composition_string(GCS_RESULTSTR, 4, &data) {
        Some(CompositionString::ResultStr(s)) => assert_eq!(s, "ab"),
        _ => panic!("no result string"),
    }
    match imc.get_composition_string(GCS_COMPATTR, 2, &[1, 2]) {
        Some(CompositionString::CompAttr(a)) => {
            assert_eq!(a, vec![Attribute::TargetConverted, Attribute::Converted])
        }
        _ => panic!("no attributes"),
    }
    assert!(imc.get_composition_string(0x0001, 4, &data).is_none());
    assert!(imc.get_composition_string(GCS_COMPSTR, IMM_ERROR_NODATA, &data).is_none());
}

#[test]
fn context_mask_clears_only_hidden_windows() {
    let all: isize = 0xC000_000Fu32 as isize;
    assert_eq!(mask_context(all, true, true), all);
    assert_eq!(mask_context(all, false, true), 0x4000_000F);
    assert_eq!(mask_context(all, true, false), 0xC000_0000u32 as isize);
    assert_eq!(mask_context(all, false, false), 0x4000_0000);
    assert_eq!(mask_context(0x10, false, false), 0x10);
    assert_eq!(mask_context(0x8000_0001u32 as isize, false, true), 1);
}

#[test]
fn window_forms() {
    let imc = Imc::get(WindowHandle(1), 2);
    let zero = Rect { left: 0, top: 0, right: 0, bottom: 0 };
    let form = imc.set_composition_window_position(PhysicalPosition::new(10, 20));
    assert_eq!((form.style, form.x, form.y, form.area), (CFS_POINT, 10, 20, zero));
    let forms = imc.set_candidate_window_position(PhysicalPosition::new(10, 20), true);
    assert_eq!(forms.len(), 1);
    assert_eq!((forms[0].index, forms[0].style, forms[0].x, forms[0].y), (0, CFS_CANDIDATEPOS, 10, 20));
    assert_eq!(forms[0].area, zero);
    let forms = imc.set_candidate_window_position(PhysicalPosition::new(10, 20), false);
    assert_eq!(forms.len(), 2);
    assert_eq!(forms[0].style, CFS_CANDIDATEPOS);
    assert_eq!(forms[1].style, CFS_EXCLUDE);
    assert_eq!(forms[1].area, Rect { left: 10, top: 20, right: 10, bottom: 20 });
}

#[test]
fn input_context_bindings() {
    let hwnd = WindowHandle(5);
    let (ctx, bound) = ImmContext::new(hwnd, 77);
    assert_eq!(bound, Association { hwnd, himc: 77, flags: IACE_CHILDREN });
    assert_eq!(ctx.enable(), Association { hwnd, himc: 77, flags: IACE_CHILDREN });
    assert_eq!(ctx.disable(), Association { hwnd, himc: 0, flags: IACE_IGNORENOCONTEXT });
    let (unbound, himc) = ctx.release();
    assert_eq!(unbound, Association { hwnd, himc: 0, flags: IACE_DEFAULT });
    assert_eq!(himc, 77);
}

#[test]
fn buffer_lengths_for_composition_parts() {
    assert_eq!(composition_buffer_len(0), Some(0));
    assert_eq!(composition_buffer_len(6), Some(6));
    assert_eq!(composition_buffer_len(IMM_ERROR_NODATA), None);
    assert_eq!(composition_buffer_len(IMM_ERROR_GENERAL), None);
    assert_eq!(composition_buffer_len(-3), None);
}
