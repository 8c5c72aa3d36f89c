//! Attestation-bound credential issuance: the binding of application data
//! into a report-data field, the replay of an event log into runtime
//! measurement registers, the byte layout of a TDX quote, and the service
//! that answers quote and key requests from a loaded certificate authority.

mod binding;
mod bytes;
mod measurement;
mod quote;
mod service;

pub use binding::{
    algorithm_named, app_data_tag, app_data_tag_bytes, bind, binding_of, binding_view, digest_of, digest_width,
    keccak256_of, keccak384_of, keccak512_of, lemma_bind_deterministic, lemma_raw_binding,
    lemma_unknown_selector_refused, named_binding_of, sha256_of, sha384_of, sha3_256_of,
    sha3_384_of, sha3_512_of, sha512_of, tagged, to_report_data_with_hash, zero_padded,
    BindError, HashAlgorithm, REPORT_DATA_LEN,
};
pub use bytes::{le16, le32, le32_value, push_all, push_le16, push_le32, read_le32, zeros};
pub use measurement::{
    compute_rtmrs, lemma_untouched_register_is_zero, lemma_replay_step, replay, EventLogEntry, RTMR_COUNT,
    RTMR_LEN,
};
pub use quote::{
    assemble_quote, lemma_auth_data_prefix_round_trip, lemma_quote_layout, quote_bytes,
    AssemblyError, QuoteHeader, TdReport10, ATTESTATION_KEY_TYPE_ECDSA_P256, AUTH_DATA_LEN_OFFSET,
    AUTH_DATA_OFFSET, HEADER_LEN, QUOTE_VERSION, REPORT_BODY_LEN, REPORT_DATA_OFFSET, RTMR0_OFFSET,
    TEE_TYPE_TDX,
};
pub use service::{
    bind_failure, is_base64_char, is_certificate_pem, is_certificate_text, is_framed, is_pem_body,
    is_private_key_pem, is_private_key_text, without_final_newline, tdx_body_bytes, tdx_header,
    tdx_quote_bytes, tdx_quote_result, AppState, CaCert, DeriveKeyResponse, InternalRpcHandler,
    ServiceError,
};
