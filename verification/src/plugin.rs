//! The composition root: the plugin facade that owns the parameter store and
//! the editor, answers the host's metadata query, surrenders the editor
//! exactly once, and runs the realtime audio transform over a buffer.
//!
//! Samples travel as 32-bit float patterns. The per-sample transform itself
//! (a gain multiply in this skeleton) is a floating-point step supplied by
//! the caller; the facade proves that it is applied to every sample of every
//! channel, paired with the current value of parameter 0.

use vstd::prelude::*;

use crate::editor::MyPluginEditor;
use crate::params::spec_get;
use crate::params::RustVstTemplateParameters;

verus! {

/// The descriptive category a host files the plugin under.
#[derive(Clone, Copy, PartialEq, Eq, Structural)]
pub enum PluginCategory {
    /// An audio effect: consumes and produces audio.
    Effect,
}

/// The static descriptive record handed to the host once at load time.
pub struct PluginInfo {
    /// Display name of the plugin.
    pub name: String,
    /// Vendor shown beside the name.
    pub vendor: String,
    /// Stable identifier the host keys the plugin by.
    pub unique_id: i32,
    /// Number of input channels.
    pub inputs: i32,
    /// Number of output channels.
    pub outputs: i32,
    /// Number of host-visible parameters.
    pub parameters: i32,
    /// Category the host files the plugin under.
    pub category: PluginCategory,
}

/// The plugin: the parameter store shared with the host's UI path, and the
/// editor capability held until the host asks for it.
pub struct RustVstTemplate {
    /// The normalized control values.
    pub params: RustVstTemplateParameters,
    /// The editor, present until the host takes ownership of it.
    pub editor_placeholder: Option<MyPluginEditor>,
}

impl RustVstTemplate {
    /// A fresh plugin: parameters at their defaults, editor closed and not
    /// yet surrendered.
    pub fn new() -> (plugin: RustVstTemplate)
        ensures
            plugin.params.param1 == crate::params::HALF_BITS,
            plugin.params.param2 == crate::params::HALF_BITS,
            plugin.editor_placeholder matches Some(ed) && !ed.is_open_spec(),
    {
        RustVstTemplate {
            params: RustVstTemplateParameters::default(),
            editor_placeholder: Some(MyPluginEditor::new()),
        }
    }

    /// The immutable metadata record.
    pub fn get_info(&self) -> (info: PluginInfo)
        ensures
            info.name@ == "RUSTVSTTEMPLATE"@,
            info.vendor@ == "Elastic Dummy"@,
            info.unique_id == 1337,
            info.inputs == 2,
            info.outputs == 2,
            info.parameters == 2,
            info.category == PluginCategory::Effect,
    {
        PluginInfo {
            name: String::from_str("RUSTVSTTEMPLATE"),
            vendor: String::from_str("Elastic Dummy"),
            unique_id: 1337,
            inputs: 2,
            outputs: 2,
            parameters: 2,
            category: PluginCategory::Effect,
        }
    }

    /// Surrenders the editor: the first call returns it, every later call
    /// returns nothing. The parameters are untouched.
    pub fn get_editor(&mut self) -> (ed: Option<MyPluginEditor>)
        ensures
            ed == old(self).editor_placeholder,
            final(self).editor_placeholder is None,
            final(self).params == old(self).params,
    {
        self.editor_placeholder.take()
    }

    /// A shared view of the parameter store, for the host's own parameter UI.
    pub fn get_parameter_object(&self) -> (ps: &RustVstTemplateParameters)
        ensures
            *ps == self.params,
    {
        &self.params
    }

    /// Exclusive access to the parameter store, for the path that edits it.
    pub fn parameters_mut(&mut self) -> (ps: &mut RustVstTemplateParameters)
        ensures
            *ps == old(self).params,
            final(self).params == *final(ps),
            final(self).editor_placeholder == old(self).editor_placeholder,
    {
        &mut self.params
    }

    /// Transforms one buffer: for every channel and every sample position,
    /// the output is the transform of the input sample paired with the
    /// current value of parameter 0 (the gain). The channel count and every
    /// channel's length are preserved; the store is only read.
    pub fn process<F: Fn(u32, u32) -> u32>(&self, inputs: &Vec<Vec<u32>>, transform: F) -> (outputs:
        Vec<Vec<u32>>)
        requires
            forall|sample: u32, gain: u32| #[trigger] call_requires(transform, (sample, gain)),
        ensures
            outputs@.len() == inputs@.len(),
            forall|c: int|
                0 <= c < inputs@.len() ==> (#[trigger] outputs@[c])@.len() == inputs@[c]@.len(),
            forall|c: int, i: int|
                0 <= c < inputs@.len() && 0 <= i < inputs@[c]@.len() ==> call_ensures(
                    transform,
                    (inputs@[c]@[i], spec_get(self.params, 0)),
                    #[trigger] outputs@[c]@[i],
                ),
    {
        let mut outputs: Vec<Vec<u32>> = Vec::new();
        let mut c: usize = 0;
        while c < inputs.len()
            invariant
                forall|sample: u32, gain: u32| #[trigger] call_requires(transform, (sample, gain)),
                c <= inputs@.len(),
                outputs@.len() == c,
                forall|k: int|
                    0 <= k < c ==> (#[trigger] outputs@[k])@.len() == inputs@[k]@.len(),
                forall|k: int, i: int|
                    0 <= k < c && 0 <= i < inputs@[k]@.len() ==> call_ensures(
                        transform,
                        (inputs@[k]@[i], spec_get(self.params, 0)),
                        #[trigger] outputs@[k]@[i],
                    ),
            decreases inputs@.len() - c,
        {
            let channel = &inputs[c];
            let mut out_channel: Vec<u32> = Vec::new();
            let mut i: usize = 0;
            while i < channel.len()
                invariant
                    forall|sample: u32, gain: u32| #[trigger] call_requires(
                        transform,
                        (sample, gain),
                    ),
                    i <= channel@.len(),
                    out_channel@.len() == i,
                    forall|k: int|
                        0 <= k < i ==> call_ensures(
                            transform,
                            (channel@[k], spec_get(self.params, 0)),
                            #[trigger] out_channel@[k],
                        ),
                decreases channel@.len() - i,
            {
                // The gain is read afresh for every sample, as a live control
                // expects.
                let gain = self.params.get_parameter(0);
                out_channel.push(transform(channel[i], gain));
                i = i + 1;
            }
            outputs.push(out_channel);
            c = c + 1;
        }
        outputs
    }
}

impl Default for RustVstTemplate {
    /// Same construction the host-facing entry point performs.
    fn default() -> (plugin: Self)
        ensures
            plugin.params.param1 == crate::params::HALF_BITS,
            plugin.params.param2 == crate::params::HALF_BITS,
            plugin.editor_placeholder matches Some(ed) && !ed.is_open_spec(),
    {
        RustVstTemplate::new()
    }
}

} // verus!
