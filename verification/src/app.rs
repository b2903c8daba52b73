//! Application state management: the current patch, its preset bookkeeping
//! and the automation engine.
//!
//! The host drives this state once per tick — advancing the clock, applying
//! automation, then packing and rendering — and edits it from the UI. Loading
//! a preset replaces the model wholesale; any edit that no longer matches a
//! saved preset clears the preset bookkeeping.

use vstd::prelude::*;

use crate::automation::AutomationState;
use crate::automation::RAW_BPM_120;
use crate::presets::builtin_presets;
use crate::presets::spec_builtin_catalogue;
use crate::presets::Preset;
use crate::synth::SynthState;
use crate::synth::RAW_ZERO;

verus! {

/// Which stage panel is currently selected in the UI
#[derive(Clone, Copy, Debug, PartialEq, Eq, Structural)]
pub enum SelectedStage {
    Input,
    Geometry,
    Amplitude,
    Colorize,
    Mixer,
    Feedback,
    Output,
}

impl Default for SelectedStage {
    fn default() -> (r: Self)
        ensures
            r == SelectedStage::Input,
    {
        SelectedStage::Input
    }
}

/// Main application state
pub struct App {
    /// Current synthesizer state
    pub synth: SynthState,
    /// Currently selected stage panel
    pub selected_stage: SelectedStage,
    /// Available presets (built-in + user)
    pub presets: Vec<Preset>,
    /// Currently selected preset index (None = modified/custom)
    pub current_preset: Option<usize>,
    /// Frame counter
    pub frame: u32,
    /// Elapsed-time word, accumulated by the host's clock
    pub time: u32,
    /// Show preset browser
    pub show_preset_browser: bool,
    /// Automation state (LFOs)
    pub automation: AutomationState,
    /// Show settings menu
    pub show_settings: bool,
}

impl App {
    /// Well-formed: the automation engine's keys are unique.
    pub open spec fn wf(&self) -> bool {
        self.automation.wf()
    }

    pub fn new() -> (r: Self)
        ensures
            r.synth == SynthState::spec_default(),
            r.selected_stage == SelectedStage::Input,
            spec_builtin_catalogue(r.presets@),
            r.current_preset is None,
            r.frame == 0,
            r.time == RAW_ZERO,
            !r.show_preset_browser,
            !r.show_settings,
            r.automation.lfos@.len() == 0,
            r.automation.global_bpm == RAW_BPM_120,
            r.wf(),
    {
        App {
            synth: SynthState::default(),
            selected_stage: SelectedStage::Input,
            presets: builtin_presets(),
            current_preset: None,
            frame: 0,
            time: RAW_ZERO,
            show_preset_browser: false,
            automation: AutomationState::new(),
            show_settings: false,
        }
    }

    /// Load a preset by index: the model is replaced wholesale by the
    /// preset's snapshot and the bookkeeping records the match. An index
    /// outside the catalogue changes nothing.
    pub fn load_preset(&mut self, index: usize)
        ensures
            *final(self) == (App {
                synth: final(self).synth,
                current_preset: final(self).current_preset,
                ..*old(self)
            }),
            index < old(self).presets@.len() ==> {
                &&& final(self).synth == old(self).presets@[index as int].state
                &&& final(self).current_preset == Some(index)
            },
            index >= old(self).presets@.len() ==> {
                &&& final(self).synth == old(self).synth
                &&& final(self).current_preset == old(self).current_preset
            },
    {
        if index < self.presets.len() {
            let state = self.presets[index].state;
            self.synth = state;
            self.current_preset = Some(index);
        }
    }

    /// Advance the frame counter by one tick, wrapping at the counter's top.
    pub fn advance_frame(&mut self)
        ensures
            *final(self) == (App { frame: final(self).frame, ..*old(self) }),
            old(self).frame < u32::MAX ==> final(self).frame == old(self).frame + 1,
            old(self).frame == u32::MAX ==> final(self).frame == 0,
    {
        if self.frame == u32::MAX {
            self.frame = 0;
        } else {
            self.frame = self.frame + 1;
        }
    }

    /// Mark state as modified (no longer matches a preset)
    pub fn mark_modified(&mut self)
        ensures
            *final(self) == (App { current_preset: None, ..*old(self) }),
    {
        self.current_preset = None;
    }
}

impl Default for App {
    fn default() -> (r: Self)
        ensures
            r.synth == SynthState::spec_default(),
            spec_builtin_catalogue(r.presets@),
            r.current_preset is None,
            r.wf(),
    {
        App::new()
    }
}

} // verus!
