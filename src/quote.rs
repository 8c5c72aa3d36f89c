use vstd::prelude::*;

use crate::bytes::{le16, le32, le32_value, push_all, push_le16, push_le32};

verus! {

/// Bytes of an encoded quote header.
pub const HEADER_LEN: usize = 48;

/// Bytes of an encoded TD 1.0 report body.
pub const REPORT_BODY_LEN: usize = 584;

/// Offset in a quote of the first runtime measurement register.
pub const RTMR0_OFFSET: usize = 376;

/// Offset in a quote of the 64-byte report-data field.
pub const REPORT_DATA_OFFSET: usize = 568;

/// Offset in a quote of the auth-data length prefix.
pub const AUTH_DATA_LEN_OFFSET: usize = 632;

/// Offset in a quote of the auth-data section itself.
pub const AUTH_DATA_OFFSET: usize = 636;

/// Quote format version written by the assembler.
pub const QUOTE_VERSION: u16 = 4;

/// TEE type tag of a TDX quote.
pub const TEE_TYPE_TDX: u32 = 0x81;

/// Attestation key type tag of an ECDSA P-256 key.
pub const ATTESTATION_KEY_TYPE_ECDSA_P256: u16 = 3;

/// The fixed header of a quote.
#[derive(Clone, Debug)]
pub struct QuoteHeader {
    pub version: u16,
    pub attestation_key_type: u16,
    pub tee_type: u32,
    pub qe_svn: u16,
    pub pce_svn: u16,
    /// 16 bytes.
    pub qe_vendor_id: Vec<u8>,
    /// 20 bytes.
    pub user_data: Vec<u8>,
}

/// The body of a TD 1.0 report; every field is a fixed-width byte string.
#[derive(Clone, Debug)]
pub struct TdReport10 {
    /// 16 bytes.
    pub tee_tcb_svn: Vec<u8>,
    /// 48 bytes.
    pub mr_seam: Vec<u8>,
    /// 48 bytes.
    pub mr_signer_seam: Vec<u8>,
    /// 8 bytes.
    pub seam_attributes: Vec<u8>,
    /// 8 bytes.
    pub td_attributes: Vec<u8>,
    /// 8 bytes.
    pub xfam: Vec<u8>,
    /// 48 bytes.
    pub mr_td: Vec<u8>,
    /// 48 bytes.
    pub mr_config_id: Vec<u8>,
    /// 48 bytes.
    pub mr_owner: Vec<u8>,
    /// 48 bytes.
    pub mr_owner_config: Vec<u8>,
    /// 48 bytes.
    pub rt_mr0: Vec<u8>,
    /// 48 bytes.
    pub rt_mr1: Vec<u8>,
    /// 48 bytes.
    pub rt_mr2: Vec<u8>,
    /// 48 bytes.
    pub rt_mr3: Vec<u8>,
    /// 64 bytes.
    pub report_data: Vec<u8>,
}

impl QuoteHeader {
    /// Every byte-string field has its fixed width.
    pub open spec fn wf(&self) -> bool {
        &&& self.qe_vendor_id@.len() == 16
        &&& self.user_data@.len() == 20
    }

    /// The little-endian encoding of the header, fields in declaration order.
    pub open spec fn bytes(&self) -> Seq<u8> {
        le16(self.version) + le16(self.attestation_key_type) + le32(self.tee_type) + le16(
            self.qe_svn,
        ) + le16(self.pce_svn) + self.qe_vendor_id@ + self.user_data@
    }

    /// Encodes the header.
    pub fn encode(&self) -> (r: Vec<u8>)
        ensures
            r@ == self.bytes(),
    {
        let mut out: Vec<u8> = Vec::new();
        push_le16(&mut out, self.version);
        assert(out@ =~= le16(self.version));
        push_le16(&mut out, self.attestation_key_type);
        push_le32(&mut out, self.tee_type);
        push_le16(&mut out, self.qe_svn);
        push_le16(&mut out, self.pce_svn);
        push_all(&mut out, self.qe_vendor_id.as_slice());
        push_all(&mut out, self.user_data.as_slice());
        out
    }
}

impl TdReport10 {
    /// Every field has its fixed width.
    pub open spec fn wf(&self) -> bool {
        &&& self.tee_tcb_svn@.len() == 16
        &&& self.mr_seam@.len() == 48
        &&& self.mr_signer_seam@.len() == 48
        &&& self.seam_attributes@.len() == 8
        &&& self.td_attributes@.len() == 8
        &&& self.xfam@.len() == 8
        &&& self.mr_td@.len() == 48
        &&& self.mr_config_id@.len() == 48
        &&& self.mr_owner@.len() == 48
        &&& self.mr_owner_config@.len() == 48
        &&& self.rt_mr0@.len() == 48
        &&& self.rt_mr1@.len() == 48
        &&& self.rt_mr2@.len() == 48
        &&& self.rt_mr3@.len() == 48
        &&& self.report_data@.len() == 64
    }

    /// The encoding of the report body: its fields concatenated in order.
    pub open spec fn bytes(&self) -> Seq<u8> {
        self.measured_fields() + self.rt_mr0@ + self.rt_mr1@ + self.rt_mr2@ + self.rt_mr3@
            + self.report_data@
    }

    /// The encoding of the fields before the runtime registers.
    pub open spec fn measured_fields(&self) -> Seq<u8> {
        self.tee_tcb_svn@ + self.mr_seam@ + self.mr_signer_seam@ + self.seam_attributes@
            + self.td_attributes@ + self.xfam@ + self.mr_td@ + self.mr_config_id@ + self.mr_owner@
            + self.mr_owner_config@
    }

    /// Encodes the report body.
    pub fn encode(&self) -> (r: Vec<u8>)
        ensures
            r@ == self.bytes(),
    {
        let mut out: Vec<u8> = Vec::new();
        push_all(&mut out, self.tee_tcb_svn.as_slice());
        assert(out@ =~= self.tee_tcb_svn@);
        push_all(&mut out, self.mr_seam.as_slice());
        push_all(&mut out, self.mr_signer_seam.as_slice());
        push_all(&mut out, self.seam_attributes.as_slice());
        push_all(&mut out, self.td_attributes.as_slice());
        push_all(&mut out, self.xfam.as_slice());
        push_all(&mut out, self.mr_td.as_slice());
        push_all(&mut out, self.mr_config_id.as_slice());
        push_all(&mut out, self.mr_owner.as_slice());
        push_all(&mut out, self.mr_owner_config.as_slice());
        push_all(&mut out, self.rt_mr0.as_slice());
        push_all(&mut out, self.rt_mr1.as_slice());
        push_all(&mut out, self.rt_mr2.as_slice());
        push_all(&mut out, self.rt_mr3.as_slice());
        push_all(&mut out, self.report_data.as_slice());
        out
    }
}

/// The bytes of a quote: header, report body, then the auth data preceded by
/// its length as four little-endian bytes.
pub open spec fn quote_bytes(header: QuoteHeader, body: TdReport10, auth_data: Seq<u8>) -> Seq<
    u8,
> {
    header.bytes() + body.bytes() + le32(auth_data.len() as u32) + auth_data
}

/// Why a quote could not be assembled.
#[derive(Clone, Copy, Debug, PartialEq, Eq, Structural)]
pub enum AssemblyError {
    /// The auth data is longer than its four-byte length prefix can state.
    AuthDataTooLong,
}

/// Assembles a quote from its header, report body and auth data; fails only
/// when the auth data does not fit a four-byte length.
pub fn assemble_quote(header: &QuoteHeader, body: &TdReport10, auth_data: &[u8]) -> (r: Result<
    Vec<u8>,
    AssemblyError,
>)
    requires
        header.wf(),
        body.wf(),
    ensures
        r is Err <==> auth_data@.len() > u32::MAX,
        r matches Ok(q) ==> q@ == quote_bytes(*header, *body, auth_data@),
{
    if auth_data.len() > u32::MAX as usize {
        return Err(AssemblyError::AuthDataTooLong);
    }
    let mut out = header.encode();
    let b = body.encode();
    push_all(&mut out, b.as_slice());
    push_le32(&mut out, auth_data.len() as u32);
    push_all(&mut out, auth_data);
    Ok(out)
}

/// In a quote of well-formed parts the report data stands at its fixed
/// offset, the four registers at theirs, and the auth data after its prefix.
pub proof fn lemma_quote_layout(header: QuoteHeader, body: TdReport10, auth_data: Seq<u8>)
    requires
        header.wf(),
        body.wf(),
    ensures
        header.bytes().len() == 48,
        body.bytes().len() == 584,
        quote_bytes(header, body, auth_data).len() == 636 + auth_data.len(),
        quote_bytes(header, body, auth_data).subrange(568, 632) == body.report_data@,
        quote_bytes(header, body, auth_data).subrange(376, 424) == body.rt_mr0@,
        quote_bytes(header, body, auth_data).subrange(424, 472) == body.rt_mr1@,
        quote_bytes(header, body, auth_data).subrange(472, 520) == body.rt_mr2@,
        quote_bytes(header, body, auth_data).subrange(520, 568) == body.rt_mr3@,
        quote_bytes(header, body, auth_data).subrange(636, 636 + auth_data.len() as int) == auth_data,
{
    let q = quote_bytes(header, body, auth_data);
    let hb = header.bytes();
    let bb = body.bytes();
    assert(hb.len() == 48);
    assert(bb.len() == 584);
    assert(q.subrange(568, 632) =~= body.report_data@);
    assert(q.subrange(376, 424) =~= body.rt_mr0@);
    assert(q.subrange(424, 472) =~= body.rt_mr1@);
    assert(q.subrange(472, 520) =~= body.rt_mr2@);
    assert(q.subrange(520, 568) =~= body.rt_mr3@);
    assert(q.subrange(636, 636 + auth_data.len() as int) =~= auth_data);
}

/// Decoding the auth-data length prefix of a quote of well-formed parts gives
/// exactly the number of bytes that follow it.
pub proof fn lemma_auth_data_prefix_round_trip(
    header: QuoteHeader,
    body: TdReport10,
    auth_data: Seq<u8>,
)
    requires
        header.wf(),
        body.wf(),
        auth_data.len() <= u32::MAX,
    ensures
        le32_value(quote_bytes(header, body, auth_data).subrange(632, 636)) == quote_bytes(
            header,
            body,
            auth_data,
        ).len() - 636,
{
    let q = quote_bytes(header, body, auth_data);
    let n = auth_data.len() as u32;
    assert(header.bytes().len() == 48);
    assert(body.bytes().len() == 584);
    assert(q.subrange(632, 636) =~= le32(n));
    assert(le32_value(le32(n)) == n as int) by (nonlinear_arith);
}

} // verus!
