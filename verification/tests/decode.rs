use iracingsdk::ptr::{FromPtr, Ptr, TryFromPtr};
use iracingsdk::records::{SdkHeader, VarBuf, VarHeader, VarType, MAX_DESC, MAX_STRING};
use iracingsdk::Error;

fn push_i32(buf: &mut Vec<u8>, x: i32) {
    buf.extend_from_slice(&x.to_le_bytes());
}

fn push_var_buf(buf: &mut Vec<u8>, tick_count: i32, buf_offset: i32) {
    push_i32(buf, tick_count);
    push_i32(buf, buf_offset);
    buf.extend_from_slice(&[0u8; 8]);
}

fn push_var_header(buf: &mut Vec<u8>, type_code: i32, offset: i32, count: i32, count_as_time: bool) {
    push_i32(buf, type_code);
    push_i32(buf, offset);
    push_i32(buf, count);
    buf.push(count_as_time as u8);
    buf.extend_from_slice(&[0u8; 3]);
    buf.extend_from_slice(&[b'n'; MAX_STRING]);
    buf.extend_from_slice(&[b'd'; MAX_DESC]);
    buf.extend_from_slice(&[b'u'; MAX_STRING]);
}

#[test]
fn read_u8_advances_and_returns_byte() {
    let data = vec![0xAAu8, 0xBB, 0xCC];
    let mut p = Ptr::new();
    p.set(1);
    let b: u8 = p.read(&data);
    assert_eq!(b, 0xBB);
    assert_eq!(p.offset, 2);
}

#[test]
fn read_i32_little_endian() {
    let data = vec![0x78u8, 0x56, 0x34, 0x12];
    let mut p = Ptr::new();
    let v: i32 = p.read(&data);
    assert_eq!(v, 0x12345678);
    assert_eq!(p.offset, 4);
}

#[test]
fn read_i32_negative() {
    let data = (-2i32).to_le_bytes().to_vec();
    let mut p = Ptr::new();
    let v: i32 = p.read(&data);
    assert_eq!(v, -2);
}

#[test]
fn read_bool() {
    let data = vec![0u8, 1u8];
    let mut p = Ptr::new();
    let f: bool = p.read(&data);
    let t: bool = p.read(&data);
    assert!(!f);
    assert!(t);
    assert_eq!(p.offset, 2);
}

#[test]
fn read_bytes_copies_range() {
    let data = vec![1u8, 2, 3, 4, 5, 6];
    let mut p = Ptr::new();
    p.set(2);
    let out = p.read_bytes(&data, 3);
    assert_eq!(out, vec![3u8, 4, 5]);
    assert_eq!(p.offset, 5);
}

#[test]
fn cursor_offset_is_sum_of_read_widths() {
    // A sequence of unconditional reads of widths 1, 4, 1, and 5 starting at
    // offset 2 ends at 2 + 1 + 4 + 1 + 5, whatever the bytes hold.
    let data = vec![0u8; 32];
    let mut p = Ptr::new();
    p.set(2);
    let _: u8 = p.read(&data);
    let _: i32 = p.read(&data);
    let _: bool = p.read(&data);
    let _ = p.read_bytes(&data, 5);
    assert_eq!(p.offset, 2 + 1 + 4 + 1 + 5);
}

#[test]
fn set_and_advance() {
    let mut p = Ptr::new();
    assert_eq!(p.offset, 0);
    p.set(40);
    assert_eq!(p.offset, 40);
    p.advance(8);
    assert_eq!(p.offset, 48);
}

#[test]
fn var_type_known_codes() {
    let expected = [
        (0, VarType::Char),
        (1, VarType::Bool),
        (2, VarType::Int32),
        (3, VarType::BitField32),
        (4, VarType::Float32),
        (5, VarType::Float64),
    ];
    for (code, var_type) in expected {
        let mut data = Vec::new();
        push_i32(&mut data, code);
        let mut p = Ptr::new();
        let got: VarType = p.try_read(&data).unwrap();
        assert_eq!(got, var_type);
        assert_eq!(p.offset, 4);
    }
}

#[test]
fn var_type_unknown_codes_carry_exact_value() {
    for code in [6, -1, 999] {
        let mut data = Vec::new();
        push_i32(&mut data, code);
        let mut p = Ptr::new();
        let got: Result<VarType, Error> = p.try_read(&data);
        assert_eq!(got, Err(Error::UnknownVarType(code)));
        assert_eq!(p.offset, 0);
    }
}

#[test]
fn var_type_raw_decode_advances_past_unknown_code() {
    // The raw discriminant decode reads the 4-byte code and stays past it
    // when the code is rejected; only the transactional read restores.
    let mut data = Vec::new();
    push_i32(&mut data, 7);
    let mut p = Ptr::new();
    let got = <VarType as TryFromPtr>::try_from_ptr(&mut p, &data);
    assert_eq!(got, Err(Error::UnknownVarType(7)));
    assert_eq!(p.offset, 4);
}

#[test]
fn var_type_byte_len() {
    assert_eq!(VarType::Char.byte_len(), 1);
    assert_eq!(VarType::Bool.byte_len(), 1);
    assert_eq!(VarType::Int32.byte_len(), 4);
    assert_eq!(VarType::BitField32.byte_len(), 4);
    assert_eq!(VarType::Float32.byte_len(), 4);
    assert_eq!(VarType::Float64.byte_len(), 8);
}

#[test]
fn var_header_commit_advances_by_whole_record() {
    let mut data = vec![0u8; 16];
    push_var_header(&mut data, 4, 12, 3, true);
    let mut p = Ptr::new();
    p.set(16);
    let h: VarHeader = p.try_read(&data).unwrap();
    assert_eq!(p.offset, 16 + 144);
    assert_eq!(h.var_type, VarType::Float32);
    assert_eq!(h.offset, 12);
    assert_eq!(h.count, 3);
    assert!(h.count_as_time);
    assert_eq!(h.name, vec![b'n'; MAX_STRING]);
    assert_eq!(h.desc, vec![b'd'; MAX_DESC]);
    assert_eq!(h.unit, vec![b'u'; MAX_STRING]);
    assert_eq!(h.byte_len(), 12);
}

#[test]
fn var_header_rollback_restores_offset_exactly() {
    let mut data = vec![0u8; 16];
    push_var_header(&mut data, 42, 12, 3, false);
    let mut p = Ptr::new();
    p.set(16);
    let got: Result<VarHeader, Error> = p.try_read(&data);
    assert!(matches!(got, Err(Error::UnknownVarType(42))));
    assert_eq!(p.offset, 16);
}

#[test]
fn var_buf_decode_skips_reserved_bytes() {
    let mut data = Vec::new();
    push_var_buf(&mut data, 7, 640);
    push_var_buf(&mut data, 9, 1280);
    let mut p = Ptr::new();
    let a: VarBuf = p.read(&data);
    let b: VarBuf = p.read(&data);
    assert_eq!((a.tick_count, a.buf_offset), (7, 640));
    assert_eq!((b.tick_count, b.buf_offset), (9, 1280));
    assert_eq!(p.offset, 32);
}

#[test]
fn sdk_header_decode() {
    let mut data = Vec::new();
    push_i32(&mut data, 2); // version
    push_i32(&mut data, 1); // status
    push_i32(&mut data, 60); // tick_rate
    push_i32(&mut data, 5); // session_info_update
    push_i32(&mut data, 512); // session_info_len
    push_i32(&mut data, 4096); // session_info_offset
    push_i32(&mut data, 0); // num_vars
    push_i32(&mut data, 112); // var_header_offset
    push_i32(&mut data, 4); // num_buf
    push_i32(&mut data, 64); // buf_len
    data.extend_from_slice(&[0u8; 8]);
    push_var_buf(&mut data, 1, 100);
    push_var_buf(&mut data, 2, 200);
    push_var_buf(&mut data, 3, 300);
    push_var_buf(&mut data, 4, 400);
    let mut p = Ptr::new();
    let h: SdkHeader = p.read(&data);
    assert_eq!(p.offset, 112);
    assert_eq!(h.version, 2);
    assert_eq!(h.status, 1);
    assert_eq!(h.tick_rate, 60);
    assert_eq!(h.session_info_update, 5);
    assert_eq!(h.session_info_len, 512);
    assert_eq!(h.session_info_offset, 4096);
    assert_eq!(h.num_vars, 0);
    assert_eq!(h.var_header_offset, 112);
    assert_eq!(h.num_buf, 4);
    assert_eq!(h.buf_len, 64);
    assert_eq!(h.var_bufs.len(), 4);
    assert_eq!(h.var_bufs[2], VarBuf { tick_count: 3, buf_offset: 300 });
}
