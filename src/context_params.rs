//! Options for loading a model, and their conversion to the engine's record.
use vstd::prelude::*;

verus! {

/// One alignment head used for token-level timestamps.
#[derive(Debug, Clone, Copy, PartialEq, Eq, Structural)]
pub struct DtwAhead {
    pub n_text_layer: i32,
    pub n_head: i32,
}

/// Alignment-head presets of the standard model sizes.
#[derive(Debug, Clone, Copy, PartialEq, Eq, Structural)]
pub enum DtwModelPreset {
    TinyEn,
    Tiny,
    BaseEn,
    Base,
    SmallEn,
    Small,
    MediumEn,
    Medium,
    LargeV1,
    LargeV2,
    LargeV3,
    LargeV3Turbo,
}

/// How token-level timestamps pick their alignment heads.
#[derive(Debug, Clone)]
pub enum DtwMode {
    /// DTW token level timestamps disabled
    Disabled,
    /// Use the `n_top` top-most text layers of the loaded model
    TopMost { n_top: i32 },
    /// Use an explicit, non-empty list of alignment heads
    Custom { aheads: Vec<DtwAhead> },
    /// Use the preset of a standard model
    ModelPreset { model_preset: DtwModelPreset },
}

/// Token-level timestamp settings.
#[derive(Debug, Clone)]
pub struct DtwParameters {
    pub mode: DtwMode,
    pub dtw_mem_size: usize,
}

/// Default working memory for alignment: 128 MiB.
pub const DEFAULT_DTW_MEM_SIZE: usize = 134217728;

/// Engine code: no alignment heads.
pub const AHEADS_NONE: u32 = 0;

/// Engine code: the top-most text layers.
pub const AHEADS_N_TOP_MOST: u32 = 1;

/// Engine code: an explicit head list.
pub const AHEADS_CUSTOM: u32 = 2;

/// The engine's code for a model-size preset.
pub open spec fn preset_code(p: DtwModelPreset) -> u32 {
    match p {
        DtwModelPreset::TinyEn => 3,
        DtwModelPreset::Tiny => 4,
        DtwModelPreset::BaseEn => 5,
        DtwModelPreset::Base => 6,
        DtwModelPreset::SmallEn => 7,
        DtwModelPreset::Small => 8,
        DtwModelPreset::MediumEn => 9,
        DtwModelPreset::Medium => 10,
        DtwModelPreset::LargeV1 => 11,
        DtwModelPreset::LargeV2 => 12,
        DtwModelPreset::LargeV3 => 13,
        DtwModelPreset::LargeV3Turbo => 14,
    }
}

/// The engine's alignment-head code for a mode.
pub open spec fn mode_code(m: DtwMode) -> u32 {
    match m {
        DtwMode::Disabled => AHEADS_NONE,
        DtwMode::TopMost { .. } => AHEADS_N_TOP_MOST,
        DtwMode::Custom { .. } => AHEADS_CUSTOM,
        DtwMode::ModelPreset { model_preset } => preset_code(model_preset),
    }
}

impl DtwModelPreset {
    /// The engine's code for this preset.
    pub fn code(self) -> (r: u32)
        ensures
            r == preset_code(self),
    {
        match self {
            DtwModelPreset::TinyEn => 3,
            DtwModelPreset::Tiny => 4,
            DtwModelPreset::BaseEn => 5,
            DtwModelPreset::Base => 6,
            DtwModelPreset::SmallEn => 7,
            DtwModelPreset::Small => 8,
            DtwModelPreset::MediumEn => 9,
            DtwModelPreset::Medium => 10,
            DtwModelPreset::LargeV1 => 11,
            DtwModelPreset::LargeV2 => 12,
            DtwModelPreset::LargeV3 => 13,
            DtwModelPreset::LargeV3Turbo => 14,
        }
    }
}

impl DtwParameters {
    /// Alignment disabled, with the default working memory.
    pub fn default_parameters() -> (r: Self)
        ensures
            r.mode is Disabled,
            r.dtw_mem_size == DEFAULT_DTW_MEM_SIZE,
    {
        DtwParameters { mode: DtwMode::Disabled, dtw_mem_size: DEFAULT_DTW_MEM_SIZE }
    }
}

impl Default for DtwParameters {
    fn default() -> (r: Self)
        ensures
            r.mode is Disabled,
            r.dtw_mem_size == DEFAULT_DTW_MEM_SIZE,
    {
        DtwParameters::default_parameters()
    }
}

/// Options for loading a model.
#[derive(Debug, Clone)]
pub struct WhisperContextParameters {
    /// Use GPU if available.
    pub use_gpu: bool,
    /// Enable flash attention. The engine disables alignment when this is set.
    pub flash_attn: bool,
    /// GPU device id.
    pub gpu_device: i32,
    /// Token-level timestamp settings.
    pub dtw_parameters: DtwParameters,
}

/// The loading options in the engine's layout.
#[derive(Debug, Clone)]
pub struct ContextRecord {
    pub use_gpu: bool,
    pub flash_attn: bool,
    pub gpu_device: i32,
    pub dtw_token_timestamps: bool,
    pub dtw_aheads_preset: u32,
    pub dtw_n_top: i32,
    pub dtw_aheads: Vec<DtwAhead>,
    pub dtw_mem_size: usize,
}

/// The defaults: CPU, no flash attention, device 0, alignment disabled.
pub open spec fn is_default_context_parameters(p: WhisperContextParameters) -> bool {
    &&& !p.use_gpu
    &&& !p.flash_attn
    &&& p.gpu_device == 0
    &&& p.dtw_parameters.mode is Disabled
    &&& p.dtw_parameters.dtw_mem_size == DEFAULT_DTW_MEM_SIZE
}

impl WhisperContextParameters {
    pub fn new() -> (r: Self)
        ensures
            is_default_context_parameters(r),
    {
        WhisperContextParameters {
            use_gpu: false,
            flash_attn: false,
            gpu_device: 0,
            dtw_parameters: DtwParameters::default_parameters(),
        }
    }

    pub fn use_gpu(&mut self, use_gpu: bool) -> (r: &mut Self)
        ensures
            *r == (WhisperContextParameters { use_gpu, ..*old(self) }),
            *final(self) == *final(r),
    {
        self.use_gpu = use_gpu;
        self
    }

    pub fn flash_attn(&mut self, flash_attn: bool) -> (r: &mut Self)
        ensures
            *r == (WhisperContextParameters { flash_attn, ..*old(self) }),
            *final(self) == *final(r),
    {
        self.flash_attn = flash_attn;
        self
    }

    pub fn gpu_device(&mut self, gpu_device: i32) -> (r: &mut Self)
        ensures
            *r == (WhisperContextParameters { gpu_device, ..*old(self) }),
            *final(self) == *final(r),
    {
        self.gpu_device = gpu_device;
        self
    }

    pub fn dtw_parameters(&mut self, dtw_parameters: DtwParameters) -> (r: &mut Self)
        ensures
            *r == (WhisperContextParameters { dtw_parameters, ..*old(self) }),
            *final(self) == *final(r),
    {
        self.dtw_parameters = dtw_parameters;
        self
    }

    /// Converts the options to the engine's record.
    pub fn to_c_struct(&self) -> (r: ContextRecord)
        ensures
            r.use_gpu == self.use_gpu,
            r.flash_attn == self.flash_attn,
            r.gpu_device == self.gpu_device,
            r.dtw_mem_size == self.dtw_parameters.dtw_mem_size,
            r.dtw_token_timestamps == !(self.dtw_parameters.mode is Disabled),
            r.dtw_aheads_preset == mode_code(self.dtw_parameters.mode),
            r.dtw_n_top == (match self.dtw_parameters.mode {
                DtwMode::TopMost { n_top } => n_top,
                _ => -1i32,
            }),
            r.dtw_aheads@ == (match self.dtw_parameters.mode {
                DtwMode::Custom { aheads } => aheads@,
                _ => Seq::<DtwAhead>::empty(),
            }),
    {
        let mut dtw_token_timestamps = true;
        let mut dtw_aheads_preset = AHEADS_NONE;
        let mut dtw_n_top: i32 = -1;
        let mut dtw_aheads: Vec<DtwAhead> = Vec::new();
        match &self.dtw_parameters.mode {
            DtwMode::Disabled => {
                dtw_token_timestamps = false;
            },
            DtwMode::TopMost { n_top } => {
                dtw_aheads_preset = AHEADS_N_TOP_MOST;
                dtw_n_top = *n_top;
            },
            DtwMode::Custom { aheads } => {
                dtw_aheads_preset = AHEADS_CUSTOM;
                let mut i: usize = 0;
                while i < aheads.len()
                    invariant
                        i <= aheads@.len(),
                        dtw_aheads@ == aheads@.subrange(0, i as int),
                    decreases aheads@.len() - i,
                {
                    dtw_aheads.push(aheads[i]);
                    i = i + 1;
                }
                assert(dtw_aheads@ == aheads@);
            },
            DtwMode::ModelPreset { model_preset } => {
                dtw_aheads_preset = model_preset.code();
            },
        }
        ContextRecord {
            use_gpu: self.use_gpu,
            flash_attn: self.flash_attn,
            gpu_device: self.gpu_device,
            dtw_token_timestamps,
            dtw_aheads_preset,
            dtw_n_top,
            dtw_aheads,
            dtw_mem_size: self.dtw_parameters.dtw_mem_size,
        }
    }
}

impl Default for WhisperContextParameters {
    fn default() -> (r: Self)
        ensures
            is_default_context_parameters(r),
    {
        WhisperContextParameters::new()
    }
}

} // verus!
