//! The verified core of a minimal source-package build tool: distfile name
//! resolution, content verification against self-describing BLAKE2b digests,
//! and the fetch-or-reuse, staging, build and packaging sequence as a step
//! machine whose every transition is pinned by its contract. The outside
//! world — disk, network, subprocesses — is driven by a caller that performs
//! each requested `Action` and answers with an `Event`.

mod digest;
mod errors;
mod hexstr;
mod laws;
mod naming;
mod package;
mod paths;
mod pipeline;
mod targets;
mod verify;

pub use digest::blake2b_of;
pub use errors::ErrorModel;
pub use errors::PipelineError;
pub use hexstr::hex_decoded;
pub use hexstr::hex_encoded;
pub use hexstr::is_hex_digit;
pub use hexstr::valid_hex;
pub use laws::is_run;
pub use laws::lemma_artifact_at_most_once;
pub use laws::lemma_cache_write_reverifies;
pub use laws::lemma_failed_build_ends_run;
pub use laws::lemma_no_silent_refetch;
pub use laws::lemma_package_only_after_build_success;
pub use laws::lemma_staged_phase_needs_prepare;
pub use laws::lemma_staging_entered_by_prepare;
pub use laws::lemma_staging_precedes_build;
pub use laws::lemma_terminal_phases_halt;
pub use laws::staged_phase;
pub use naming::resolve_name;
pub use naming::resolved_name;
pub use naming::uri_final_segment;
pub use package::Distfile;
pub use package::DistfileModel;
pub use package::Package;
pub use paths::artifact_file_name;
pub use paths::artifact_name_of;
pub use paths::join_path;
pub use paths::joined_path;
pub use pipeline::begin_post;
pub use pipeline::copy_post;
pub use pipeline::event_fits;
pub use pipeline::failed_with;
pub use pipeline::fields_unchanged;
pub use pipeline::step_post;
pub use pipeline::Action;
pub use pipeline::Event;
pub use pipeline::Phase;
pub use pipeline::Pipeline;
pub use targets::select_target;
pub use targets::selected_target;
pub use verify::digest_len;
pub use verify::digest_len_supported;
pub use verify::digest_matches;
pub use verify::lemma_verify_deterministic;
pub use verify::verify;
pub use verify::verify_post;
