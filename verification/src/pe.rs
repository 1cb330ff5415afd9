use vstd::prelude::*;
use crate::error::ClrError;

verus! {

/// Length of the legacy header that opens every executable image.
pub const DOS_HEADER_LEN: usize = 64;

/// Offset of the little-endian field holding the modern header's offset.
pub const LFANEW_OFFSET: usize = 60;

/// Magic value that opens the legacy header.
pub const DOS_MAGIC: u16 = 0x5A4D;

/// Signature that opens the modern header.
pub const NT_SIGNATURE: u32 = 0x4550;

/// Bytes occupied by the modern header: signature, file header, and the
/// 64-bit optional header with its full data directory.
pub const NT_HEADERS_LEN: usize = 264;

/// Offset of the characteristics word within the modern header.
pub const CHARACTERISTICS_OFFSET: usize = 22;

/// Characteristics bit: the image is executable.
pub const IMAGE_FILE_EXECUTABLE_IMAGE: u16 = 0x0002;

/// Characteristics bit: the image is a dynamic library.
pub const IMAGE_FILE_DLL: u16 = 0x2000;

/// Characteristics bit: relocation information has been stripped; images
/// carrying it are rejected here.
pub const IMAGE_FILE_RELOCS_STRIPPED: u16 = 0x0001;

/// Offset, within the modern header, of the data-directory entry that
/// describes the hosted-code metadata.
pub const COM_DESCRIPTOR_OFFSET: usize = 248;

/// The 16-bit little-endian value stored at byte offset `i`.
pub open spec fn le16(b: Seq<u8>, i: int) -> u16
    recommends
        0 <= i,
        i + 2 <= b.len(),
{
    (b[i] + 0x100 * b[i + 1]) as u16
}

/// The 32-bit little-endian value stored at byte offset `i`.
pub open spec fn le32(b: Seq<u8>, i: int) -> u32
    recommends
        0 <= i,
        i + 4 <= b.len(),
{
    (b[i] + 0x100 * b[i + 1] + 0x10000 * b[i + 2] + 0x1000000 * b[i + 3]) as u32
}

/// The modern header's offset, as recorded in the legacy header.
pub open spec fn spec_lfanew(b: Seq<u8>) -> u32 {
    le32(b, LFANEW_OFFSET as int)
}

/// True when the buffer opens with a well-formed legacy header and holds a
/// complete modern header at the recorded offset: the legacy magic matches,
/// the recorded offset is non-negative as a signed field, the whole modern
/// header lies strictly inside the buffer, and the modern signature matches.
pub open spec fn spec_has_nt_header(b: Seq<u8>) -> bool {
    &&& b.len() >= DOS_HEADER_LEN
    &&& le16(b, 0) == DOS_MAGIC
    &&& spec_lfanew(b) < 0x8000_0000u32
    &&& spec_lfanew(b) + NT_HEADERS_LEN < b.len()
    &&& le32(b, spec_lfanew(b) as int) == NT_SIGNATURE
}

/// The characteristics word of the modern header.
pub open spec fn spec_characteristics(b: Seq<u8>) -> u16
    recommends
        spec_has_nt_header(b),
{
    le16(b, spec_lfanew(b) + CHARACTERISTICS_OFFSET)
}

/// True when the buffer is an executable image: it carries a modern header
/// whose characteristics mark it executable, not a dynamic library, and not
/// stripped of relocation information.
pub open spec fn spec_is_exe(b: Seq<u8>) -> bool {
    &&& spec_has_nt_header(b)
    &&& spec_characteristics(b) & IMAGE_FILE_EXECUTABLE_IMAGE != 0
    &&& spec_characteristics(b) & IMAGE_FILE_DLL == 0
    &&& spec_characteristics(b) & IMAGE_FILE_RELOCS_STRIPPED == 0
}

/// True when the buffer carries a non-empty hosted-code metadata directory
/// entry: both the entry's address and size fields are non-zero.
pub open spec fn spec_is_dotnet(b: Seq<u8>) -> bool {
    &&& spec_has_nt_header(b)
    &&& le32(b, spec_lfanew(b) + COM_DESCRIPTOR_OFFSET) != 0
    &&& le32(b, spec_lfanew(b) + COM_DESCRIPTOR_OFFSET + 4) != 0
}

/// True when the buffer passes the full validation gate: a well-formed
/// executable image that carries hosted-code metadata.
pub open spec fn spec_valid_assembly(b: Seq<u8>) -> bool {
    spec_is_exe(b) && spec_is_dotnet(b)
}

/// Reads the 16-bit little-endian value at byte offset `i`.
fn read_le16(b: &[u8], i: usize) -> (r: u16)
    requires
        i + 2 <= b@.len(),
    ensures
        r == le16(b@, i as int),
{
    (b[i] as u16) + 0x100 * (b[i + 1] as u16)
}

/// Reads the 32-bit little-endian value at byte offset `i`.
fn read_le32(b: &[u8], i: usize) -> (r: u32)
    requires
        i + 4 <= b@.len(),
    ensures
        r == le32(b@, i as int),
{
    (b[i] as u32) + 0x100 * (b[i + 1] as u32) + 0x10000 * (b[i + 2] as u32)
        + 0x1000000 * (b[i + 3] as u32)
}

/// Locates the modern header, returning its byte offset when the buffer
/// holds one and `None` otherwise.
pub fn get_nt_header(buffer: &[u8]) -> (r: Option<usize>)
    ensures
        r is Some <==> spec_has_nt_header(buffer@),
        r is Some ==> r->0 == spec_lfanew(buffer@),
{
    if buffer.len() < DOS_HEADER_LEN {
        return None;
    }
    if read_le16(buffer, 0) != DOS_MAGIC {
        return None;
    }
    let lfanew = read_le32(buffer, LFANEW_OFFSET);
    if lfanew >= 0x8000_0000u32 {
        return None;
    }
    let offset = lfanew as usize;
    if offset >= buffer.len() || buffer.len() - offset <= NT_HEADERS_LEN {
        return None;
    }
    if read_le32(buffer, offset) != NT_SIGNATURE {
        return None;
    }
    Some(offset)
}

/// True when the buffer is an executable image in the sense of
/// `spec_is_exe`.
pub fn is_exe(buffer: &[u8]) -> (r: bool)
    ensures
        r == spec_is_exe(buffer@),
{
    match get_nt_header(buffer) {
        Some(offset) => {
            let characteristics = read_le16(buffer, offset + CHARACTERISTICS_OFFSET);
            characteristics & IMAGE_FILE_EXECUTABLE_IMAGE != 0
                && characteristics & IMAGE_FILE_DLL == 0
                && characteristics & IMAGE_FILE_RELOCS_STRIPPED == 0
        },
        None => false,
    }
}

/// True when the buffer carries a non-empty hosted-code metadata directory
/// entry in the sense of `spec_is_dotnet`.
pub fn is_dotnet(buffer: &[u8]) -> (r: bool)
    ensures
        r == spec_is_dotnet(buffer@),
{
    match get_nt_header(buffer) {
        Some(offset) => {
            let virtual_address = read_le32(buffer, offset + COM_DESCRIPTOR_OFFSET);
            let size = read_le32(buffer, offset + COM_DESCRIPTOR_OFFSET + 4);
            virtual_address != 0 && size != 0
        },
        None => false,
    }
}

/// The verdict the validation gate owes a buffer: a buffer that is not a
/// well-formed executable image is invalid; a well-formed executable image
/// without hosted-code metadata is not hosted code; the rest pass.
pub open spec fn spec_validate(b: Seq<u8>) -> Result<(), ClrError> {
    if !spec_is_exe(b) {
        Err(ClrError::InvalidExecutable)
    } else if !spec_is_dotnet(b) {
        Err(ClrError::NotDotNet)
    } else {
        Ok(())
    }
}

/// The validation gate run before any lifecycle step.
pub fn validate_file(buffer: &[u8]) -> (r: Result<(), ClrError>)
    ensures
        r == spec_validate(buffer@),
{
    if !is_exe(buffer) {
        return Err(ClrError::InvalidExecutable);
    }
    if !is_dotnet(buffer) {
        return Err(ClrError::NotDotNet);
    }
    Ok(())
}

/// Validation admits exactly the buffers that are both well-formed
/// executable images and carriers of hosted-code metadata, and each
/// rejection names its reason: a buffer that is not a well-formed
/// executable image is turned away as invalid, and a well-formed
/// executable image without hosted-code metadata is turned away as not
/// hosted code.
pub proof fn lemma_validator_gate(b: Seq<u8>)
    ensures
        spec_validate(b) is Ok <==> spec_valid_assembly(b),
        !spec_is_exe(b) ==> spec_validate(b) == Result::<(), ClrError>::Err(
            ClrError::InvalidExecutable,
        ),
        spec_is_exe(b) && !spec_is_dotnet(b) ==> spec_validate(b) == Result::<(), ClrError>::Err(
            ClrError::NotDotNet,
        ),
{
}

} // verus!
