//! The configuration snapshot read once per session.  Persistence of the
//! record (file location and format) is handled by the surrounding shell.

use vstd::prelude::*;

verus! {

#[derive(Debug, Clone, Copy, PartialEq, Eq, Structural)]
pub enum ModelSize {
    Small,
    Medium,
}

impl Default for ModelSize {
    fn default() -> (m: Self)
        ensures
            m == ModelSize::Small,
    {
        ModelSize::Small
    }
}

#[derive(Debug, Clone, Copy, PartialEq, Eq, Structural)]
pub enum PartialAutotypeMode {
    Replace,
}

impl Default for PartialAutotypeMode {
    fn default() -> (m: Self)
        ensures
            m == PartialAutotypeMode::Replace,
    {
        PartialAutotypeMode::Replace
    }
}

#[derive(Debug, Clone, Copy, PartialEq, Eq, Structural)]
pub struct PillPosition {
    pub x: i32,
    pub y: i32,
}

#[derive(Debug, Clone)]
pub struct AppConfig {
    pub max_record_seconds: u32,
    pub model: ModelSize,
    pub auto_type: bool,
    pub text_cleanup: bool,
    pub llm_postprocess_enabled: bool,
    pub llm_provider: String,
    pub llm_api_base_url: String,
    pub llm_api_key: String,
    pub llm_model: String,
    pub realtime_enabled: bool,
    pub partial_autotype_mode: PartialAutotypeMode,
    pub pill_position: Option<PillPosition>,
}

/// Field-by-field equality of two configuration records, strings by view.
pub open spec fn cfg_eq(a: &AppConfig, b: &AppConfig) -> bool {
    &&& a.max_record_seconds == b.max_record_seconds
    &&& a.model == b.model
    &&& a.auto_type == b.auto_type
    &&& a.text_cleanup == b.text_cleanup
    &&& a.llm_postprocess_enabled == b.llm_postprocess_enabled
    &&& a.llm_provider@ == b.llm_provider@
    &&& a.llm_api_base_url@ == b.llm_api_base_url@
    &&& a.llm_api_key@ == b.llm_api_key@
    &&& a.llm_model@ == b.llm_model@
    &&& a.realtime_enabled == b.realtime_enabled
    &&& a.partial_autotype_mode == b.partial_autotype_mode
    &&& a.pill_position == b.pill_position
}

impl AppConfig {
    /// A deep copy whose relation to the original is visible to proofs,
    /// unlike the derived `clone`.
    pub fn snapshot(&self) -> (c: AppConfig)
        ensures
            cfg_eq(&c, self),
    {
        AppConfig {
            max_record_seconds: self.max_record_seconds,
            model: self.model,
            auto_type: self.auto_type,
            text_cleanup: self.text_cleanup,
            llm_postprocess_enabled: self.llm_postprocess_enabled,
            llm_provider: self.llm_provider.clone(),
            llm_api_base_url: self.llm_api_base_url.clone(),
            llm_api_key: self.llm_api_key.clone(),
            llm_model: self.llm_model.clone(),
            realtime_enabled: self.realtime_enabled,
            partial_autotype_mode: self.partial_autotype_mode,
            pill_position: self.pill_position,
        }
    }
}

impl Default for AppConfig {
    fn default() -> (c: Self)
        ensures
            c.max_record_seconds == 60,
            c.model == ModelSize::Small,
            c.auto_type,
            c.text_cleanup,
            !c.llm_postprocess_enabled,
            c.llm_provider@.len() == 0,
            c.llm_api_base_url@.len() == 0,
            c.llm_api_key@.len() == 0,
            c.llm_model@.len() == 0,
            c.realtime_enabled,
            c.partial_autotype_mode == PartialAutotypeMode::Replace,
            c.pill_position is None,
    {
        AppConfig {
            max_record_seconds: 60,
            model: ModelSize::Small,
            auto_type: true,
            text_cleanup: true,
            llm_postprocess_enabled: false,
            llm_provider: String::new(),
            llm_api_base_url: String::new(),
            llm_api_key: String::new(),
            llm_model: String::new(),
            realtime_enabled: true,
            partial_autotype_mode: PartialAutotypeMode::Replace,
            pill_position: None,
        }
    }
}

/// An update keeps the stored pill position when the incoming record
/// does not carry one; every other field is taken from the incoming record.
pub fn merge_config(current: &AppConfig, incoming: AppConfig) -> (merged: AppConfig)
    ensures
        merged.pill_position == (if incoming.pill_position is None {
            current.pill_position
        } else {
            incoming.pill_position
        }),
        merged.max_record_seconds == incoming.max_record_seconds,
        merged.model == incoming.model,
        merged.auto_type == incoming.auto_type,
        merged.text_cleanup == incoming.text_cleanup,
        merged.llm_postprocess_enabled == incoming.llm_postprocess_enabled,
        merged.llm_provider@ == incoming.llm_provider@,
        merged.llm_api_base_url@ == incoming.llm_api_base_url@,
        merged.llm_api_key@ == incoming.llm_api_key@,
        merged.llm_model@ == incoming.llm_model@,
        merged.realtime_enabled == incoming.realtime_enabled,
        merged.partial_autotype_mode == incoming.partial_autotype_mode,
{
    let mut merged = incoming;
    if merged.pill_position.is_none() {
        merged.pill_position = current.pill_position;
    }
    merged
}

} // verus!
