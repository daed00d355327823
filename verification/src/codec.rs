//! Byte-exact construction and parsing of the Colorlight control frames.
//!
//! Every outbound frame is a full Ethernet frame: a 14-byte header
//! (destination MAC, source MAC, big-endian EtherType) followed by a payload
//! whose layout depends on the EtherType.  The receiver hardware accepts no
//! variance, so each builder's contract pins every byte of its output.

use vstd::prelude::*;

verus! {

/// Fixed destination address: the receiver card's protocol-defined identity.
pub const DST_MAC: [u8; 6] = [0x11, 0x22, 0x33, 0x44, 0x55, 0x66];

/// Fixed source address: this controller's protocol-defined identity.
pub const SRC_MAC: [u8; 6] = [0x22, 0x22, 0x33, 0x44, 0x55, 0x66];

/// EtherType of the detect request and of the detect acknowledge.
pub const ETH_DETECT_REQ: u16 = 0x0700;

/// EtherType of the detect response broadcast by the card.
pub const ETH_DETECT_RSP: u16 = 0x0805;

/// EtherType of the display-parameters frame.
pub const ETH_DISPLAY_FRAME: u16 = 0x0107;

/// EtherType of a pixel-row frame for rows 0..=255.
pub const ETH_PIXEL_ROW_LOW: u16 = 0x5500;

/// EtherType of a pixel-row frame for rows 256..=65535.
pub const ETH_PIXEL_ROW_HIGH: u16 = 0x5501;

/// Identity and panel geometry reported by a receiver card in its detect
/// response.  An all-zero value is the parser's fallback for a response
/// payload shorter than 24 bytes; callers must read it as "insufficient
/// data", not as a real 0-by-0 panel.
#[derive(Debug, Clone, Copy, PartialEq, Eq, Structural)]
pub struct ReceiverCardInfo {
    pub version_major: u8,
    pub version_minor: u8,
    pub pixel_columns: u16,
    pub pixel_rows: u16,
}

/// The 14-byte Ethernet header shared by every outbound frame:
/// destination MAC, source MAC, then the EtherType in big-endian order.
pub open spec fn eth_header(ethertype: u16) -> Seq<u8> {
    seq![
        0x11u8, 0x22u8, 0x33u8, 0x44u8, 0x55u8, 0x66u8,
        0x22u8, 0x22u8, 0x33u8, 0x44u8, 0x55u8, 0x66u8,
        (ethertype / 256) as u8,
        (ethertype % 256) as u8,
    ]
}

/// A run of `n` zero bytes.
pub open spec fn zeros(n: nat) -> Seq<u8> {
    Seq::new(n, |i: int| 0u8)
}

/// The detect request: header with EtherType 0x0700, then 270 zero bytes.
pub open spec fn detect_request_frame() -> Seq<u8> {
    eth_header(ETH_DETECT_REQ) + zeros(270)
}

/// The detect acknowledge: same header and length as the request, but
/// payload byte 2 (absolute byte 16) set to 1.
pub open spec fn detect_ack_frame() -> Seq<u8> {
    eth_header(ETH_DETECT_REQ) + zeros(270).update(2, 1u8)
}

/// A big-endian 16-bit value read from two bytes.
pub open spec fn be16(hi: u8, lo: u8) -> u16 {
    (hi * 256 + lo) as u16
}

/// What `parse_detect_receiver_response` yields for a given response
/// payload (the frame with its 14-byte Ethernet header already stripped):
/// byte 1 is the major version, byte 2 the minor version, bytes 20-21 the
/// pixel columns and bytes 22-23 the pixel rows, both big-endian.  A payload
/// shorter than 24 bytes yields the all-zero fallback.
pub open spec fn parse_response_spec(data: Seq<u8>) -> ReceiverCardInfo {
    if data.len() < 24 {
        ReceiverCardInfo { version_major: 0, version_minor: 0, pixel_columns: 0, pixel_rows: 0 }
    } else {
        ReceiverCardInfo {
            version_major: data[1],
            version_minor: data[2],
            pixel_columns: be16(data[20], data[21]),
            pixel_rows: be16(data[22], data[23]),
        }
    }
}

/// The display-parameters payload: 98 bytes, all zero except byte 21
/// (global brightness), byte 22 (fixed marker 5), and bytes 24..27
/// (red, green, blue scaling).
pub open spec fn display_payload(brightness: u8, r: u8, g: u8, b: u8) -> Seq<u8> {
    zeros(98).update(21, brightness).update(22, 5u8).update(24, r).update(25, g).update(26, b)
}

/// The display-parameters frame: header with EtherType 0x0107, then the
/// 98-byte display payload.
pub open spec fn display_frame_spec(brightness: u8, r: u8, g: u8, b: u8) -> Seq<u8> {
    eth_header(ETH_DISPLAY_FRAME) + display_payload(brightness, r, g, b)
}

/// The EtherType of a pixel-row frame: 0x5500 for rows below 256, 0x5501
/// for rows 256 and above.  The high byte of the row index appears nowhere
/// in the payload; only this choice of EtherType carries it.
pub open spec fn pixel_row_ethertype(row_number: u16) -> u16 {
    if row_number < 256 {
        ETH_PIXEL_ROW_LOW
    } else {
        ETH_PIXEL_ROW_HIGH
    }
}

/// The pixel count advertised in a row frame: the number of whole BGR
/// triplets in the data, truncated to 16 bits.  When the data length is not
/// a multiple of 3 this undercounts while the full buffer is still sent;
/// callers are expected to supply whole triplets.
pub open spec fn pixel_count_of(len: nat) -> u16 {
    ((len / 3) % 0x10000) as u16
}

/// The pixel-row payload: a 7-byte row header (low byte of the row index,
/// a fixed zero pixel start offset, the big-endian pixel count, and the two
/// fixed markers 0x08 and 0x88) followed by the BGR data verbatim.
pub open spec fn pixel_row_payload(row_number: u16, data: Seq<u8>) -> Seq<u8> {
    seq![
        (row_number % 256) as u8,
        0u8,
        0u8,
        (pixel_count_of(data.len()) / 256) as u8,
        (pixel_count_of(data.len()) % 256) as u8,
        0x08u8,
        0x88u8,
    ] + data
}

/// The pixel-row frame: header with the row-band EtherType, then the
/// row payload.
pub open spec fn pixel_row_frame_spec(row_number: u16, data: Seq<u8>) -> Seq<u8> {
    eth_header(pixel_row_ethertype(row_number)) + pixel_row_payload(row_number, data)
}

/// Builds a fresh frame: the 14-byte header followed by an all-zero payload.
fn make_frame(ethertype: u16, payload_len: usize) -> (frame: Vec<u8>)
    requires
        payload_len <= usize::MAX - 14,
    ensures
        frame@ == eth_header(ethertype) + zeros(payload_len as nat),
{
    let mut frame: Vec<u8> = Vec::new();
    frame.push(0x11);
    frame.push(0x22);
    frame.push(0x33);
    frame.push(0x44);
    frame.push(0x55);
    frame.push(0x66);
    frame.push(0x22);
    frame.push(0x22);
    frame.push(0x33);
    frame.push(0x44);
    frame.push(0x55);
    frame.push(0x66);
    frame.push((ethertype / 256) as u8);
    frame.push((ethertype % 256) as u8);
    assert(frame@ =~= eth_header(ethertype));
    let total: usize = 14 + payload_len;
    while frame.len() < total
        invariant
            14 <= frame.len() <= total,
            total == 14 + payload_len,
            forall|j: int| 0 <= j < 14 ==> frame@[j] == eth_header(ethertype)[j],
            forall|j: int| 14 <= j < frame@.len() ==> frame@[j] == 0u8,
        decreases total - frame.len(),
    {
        frame.push(0);
    }
    assert(frame@ =~= eth_header(ethertype) + zeros(payload_len as nat));
    frame
}

/// Builds the "detect receiver card" request frame: 284 bytes, EtherType
/// 0x0700, all payload bytes zero.
pub fn build_detect_receiver_req() -> (frame: Vec<u8>)
    ensures
        frame@ == detect_request_frame(),
        frame@.len() == 284,
{
    let frame = make_frame(ETH_DETECT_REQ, 270);
    frame
}

/// Builds the detect acknowledge frame: 284 bytes, EtherType 0x0700,
/// payload byte 2 set to 1, every other payload byte zero.
pub fn build_detect_receiver_ack() -> (frame: Vec<u8>)
    ensures
        frame@ == detect_ack_frame(),
        frame@.len() == 284,
{
    let mut frame = make_frame(ETH_DETECT_REQ, 270);
    frame[14 + 2] = 1;
    assert(frame@ =~= detect_ack_frame());
    frame
}

/// Parses the payload of a detect response frame (Ethernet header already
/// stripped) into the card's version and panel geometry.  A payload shorter
/// than 24 bytes yields the all-zero `ReceiverCardInfo` instead of failing.
pub fn parse_detect_receiver_response(data: &[u8]) -> (info: ReceiverCardInfo)
    ensures
        info == parse_response_spec(data@),
        data@.len() < 24 ==> info == (ReceiverCardInfo {
            version_major: 0,
            version_minor: 0,
            pixel_columns: 0,
            pixel_rows: 0,
        }),
{
    if data.len() < 24 {
        return ReceiverCardInfo {
            version_major: 0,
            version_minor: 0,
            pixel_columns: 0,
            pixel_rows: 0,
        };
    }
    let version_major = data[1];
    let version_minor = data[2];
    let cols: u16 = (data[20] as u16) * 256 + (data[21] as u16);
    let rows: u16 = (data[22] as u16) * 256 + (data[23] as u16);
    ReceiverCardInfo {
        version_major,
        version_minor,
        pixel_columns: cols,
        pixel_rows: rows,
    }
}

/// Builds the display-parameters frame: 112 bytes, EtherType 0x0107,
/// payload byte 21 = brightness, byte 22 = 5, bytes 24..27 = r, g, b,
/// every other payload byte zero.
pub fn build_display_frame(brightness: u8, r: u8, g: u8, b: u8) -> (frame: Vec<u8>)
    ensures
        frame@ == display_frame_spec(brightness, r, g, b),
        frame@.len() == 112,
{
    let mut frame = make_frame(ETH_DISPLAY_FRAME, 98);
    frame[14 + 21] = brightness;
    frame[14 + 22] = 5;
    frame[14 + 24] = r;
    frame[14 + 25] = g;
    frame[14 + 26] = b;
    assert(frame@ =~= display_frame_spec(brightness, r, g, b));
    frame
}

/// Builds one pixel-row frame: the row-band EtherType, the 7-byte row
/// header, then the caller's BGR bytes copied verbatim.  Total length is
/// 14 + 7 + the data length.
pub fn build_pixel_row_frame(row_number: u16, row_data_bgr: &[u8]) -> (frame: Vec<u8>)
    requires
        row_data_bgr@.len() + 21 <= usize::MAX,
    ensures
        frame@ == pixel_row_frame_spec(row_number, row_data_bgr@),
        frame@.len() == 21 + row_data_bgr@.len(),
{
    let pixel_count: u16 = ((row_data_bgr.len() / 3) % 0x10000) as u16;
    let ethertype: u16 = if row_number < 256 {
        ETH_PIXEL_ROW_LOW
    } else {
        ETH_PIXEL_ROW_HIGH
    };
    let mut frame = make_frame(ethertype, 7 + row_data_bgr.len());
    frame[14] = (row_number % 256) as u8;
    frame[15] = 0x00;
    frame[16] = 0x00;
    frame[17] = (pixel_count / 256) as u8;
    frame[18] = (pixel_count % 256) as u8;
    frame[19] = 0x08;
    frame[20] = 0x88;
    let mut i: usize = 0;
    while i < row_data_bgr.len()
        invariant
            i <= row_data_bgr@.len(),
            row_data_bgr@.len() + 21 <= usize::MAX,
            frame@.len() == 21 + row_data_bgr@.len(),
            forall|j: int| 0 <= j < 21 ==> frame@[j]
                == pixel_row_frame_spec(row_number, row_data_bgr@)[j],
            forall|j: int| 21 <= j < 21 + i ==> frame@[j]
                == pixel_row_frame_spec(row_number, row_data_bgr@)[j],
        decreases row_data_bgr@.len() - i,
    {
        frame[21 + i] = row_data_bgr[i];
        i = i + 1;
    }
    assert(frame@ =~= pixel_row_frame_spec(row_number, row_data_bgr@));
    frame
}

/// Law: `build_detect_receiver_req` is pure.  Any two frames that meet its
/// contract are byte-identical, since both equal the one request layout.
pub proof fn lemma_detect_request_pure(frame1: Seq<u8>, frame2: Seq<u8>)
    requires
        frame1 == detect_request_frame(),
        frame2 == detect_request_frame(),
    ensures
        frame1 == frame2,
{
}

/// Law: `build_detect_receiver_ack` is pure.  Any two frames that meet its
/// contract are byte-identical.
pub proof fn lemma_detect_ack_pure(frame1: Seq<u8>, frame2: Seq<u8>)
    requires
        frame1 == detect_ack_frame(),
        frame2 == detect_ack_frame(),
    ensures
        frame1 == frame2,
{
}

/// Law: `build_display_frame` is pure.  Two frames built from the same
/// brightness and color scaling are byte-identical.
pub proof fn lemma_display_frame_pure(
    frame1: Seq<u8>,
    frame2: Seq<u8>,
    brightness: u8,
    r: u8,
    g: u8,
    b: u8,
)
    requires
        frame1 == display_frame_spec(brightness, r, g, b),
        frame2 == display_frame_spec(brightness, r, g, b),
    ensures
        frame1 == frame2,
{
}

/// Law: `build_pixel_row_frame` is pure.  Two frames built from the same
/// row index and the same pixel data are byte-identical.
pub proof fn lemma_pixel_row_frame_pure(
    frame1: Seq<u8>,
    frame2: Seq<u8>,
    row_number: u16,
    data: Seq<u8>,
)
    requires
        frame1 == pixel_row_frame_spec(row_number, data),
        frame2 == pixel_row_frame_spec(row_number, data),
    ensures
        frame1 == frame2,
{
}

} // verus!
