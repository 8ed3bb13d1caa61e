use vstd::prelude::*;

verus! {

/// `OS_LOG_TYPE_DEFAULT`: the log type of ordinary messages.
pub const OS_LOG_TYPE_DEFAULT: u8 = 0x00;

/// `OS_LOG_TYPE_ERROR`: the log type of error messages.
pub const OS_LOG_TYPE_ERROR: u8 = 0x10;

/// The size of the argument buffer for a format of one `%{public}s` argument.
pub const PUBLIC_STRING_BUFFER_SIZE: usize = 12;

/// The opaque log object that an `os_log_t` handle points to. It holds no
/// data of its own.
#[allow(non_camel_case_types)]
pub struct os_log_s {
    _data: (),
}

/// The argument buffer that `os_log` takes for the format `"%{public}s"`
/// with one string at address `addr`: a summary byte (the buffer holds a
/// non-scalar argument), the argument count 1, the descriptor of a string
/// argument marked public, the argument's size 8, then the address in
/// little-endian order.
pub open spec fn spec_public_string_buffer(addr: u64) -> Seq<u8> {
    seq![0x02u8, 0x01u8, 0x22u8, 0x08u8] + vstd::bytes::spec_u64_to_le_bytes(addr)
}

/// Builds the `os_log` argument buffer for one public string argument at
/// address `addr`.
pub fn public_string_buffer(addr: u64) -> (res: Vec<u8>)
    ensures
        res@ == spec_public_string_buffer(addr),
        res@.len() == PUBLIC_STRING_BUFFER_SIZE,
{
    let mut buf: Vec<u8> = Vec::new();
    buf.push(0x02);
    buf.push(0x01);
    buf.push(0x22);
    buf.push(0x08);
    buf.push((addr & 0xff) as u8);
    buf.push(((addr >> 8) & 0xff) as u8);
    buf.push(((addr >> 16) & 0xff) as u8);
    buf.push(((addr >> 24) & 0xff) as u8);
    buf.push(((addr >> 32) & 0xff) as u8);
    buf.push(((addr >> 40) & 0xff) as u8);
    buf.push(((addr >> 48) & 0xff) as u8);
    buf.push(((addr >> 56) & 0xff) as u8);
    proof {
        vstd::bytes::spec_u64_to_le_bytes_to_open(addr);
        assert(buf@ =~= spec_public_string_buffer(addr));
    }
    buf
}

} // verus!
