use vst_template::PluginCategory;
use vst_template::RustVstTemplate;

#[test]
fn info_record_is_the_fixed_metadata() {
    let plugin = RustVstTemplate::new();
    let info = plugin.get_info();
    assert_eq!(info.name, "RUSTVSTTEMPLATE");
    assert_eq!(info.vendor, "Elastic Dummy");
    assert_eq!(info.unique_id, 1337);
    assert_eq!(info.inputs, 2);
    assert_eq!(info.outputs, 2);
    assert_eq!(info.parameters, 2);
    assert!(matches!(info.category, PluginCategory::Effect));
}

#[test]
fn editor_is_surrendered_exactly_once() {
    let mut plugin = RustVstTemplate::new();
    let first = plugin.get_editor();
    assert!(first.is_some());
    assert!(!first.unwrap().is_open());
    assert!(plugin.get_editor().is_none());
    assert!(plugin.get_editor().is_none());
}

#[test]
fn process_multiplies_every_sample_by_the_gain() {
    let mut plugin = RustVstTemplate::new();
    plugin.parameters_mut().set_parameter(0, 0.75f32.to_bits());
    let channel: Vec<u32> = [1.0f32, -1.0, 0.5, 0.0].iter().map(|s| s.to_bits()).collect();
    let inputs = vec![channel.clone(), channel];
    let gain_multiply = |s: u32, g: u32| (f32::from_bits(s) * f32::from_bits(g)).to_bits();
    let outputs = plugin.process(&inputs, gain_multiply);
    assert_eq!(outputs.len(), 2);
    for out_channel in &outputs {
        let samples: Vec<f32> = out_channel.iter().map(|s| f32::from_bits(*s)).collect();
        assert_eq!(samples, vec![0.75f32, -0.75, 0.375, 0.0]);
    }
}

#[test]
fn process_with_unit_gain_is_the_identity() {
    let mut plugin = RustVstTemplate::new();
    plugin.parameters_mut().set_parameter(0, 1.0f32.to_bits());
    let inputs = vec![vec![0.25f32.to_bits(), 0.125f32.to_bits()]];
    let gain_multiply = |s: u32, g: u32| (f32::from_bits(s) * f32::from_bits(g)).to_bits();
    let outputs = plugin.process(&inputs, gain_multiply);
    assert_eq!(outputs, inputs);
}

#[test]
fn process_preserves_channel_count_and_lengths() {
    let plugin = RustVstTemplate::new();
    let inputs = vec![vec![0u32; 7], vec![0u32; 7]];
    let gain_multiply = |s: u32, g: u32| (f32::from_bits(s) * f32::from_bits(g)).to_bits();
    let outputs = plugin.process(&inputs, gain_multiply);
    assert_eq!(outputs.len(), inputs.len());
    for (inp, out) in inputs.iter().zip(outputs.iter()) {
        assert_eq!(inp.len(), out.len());
    }
}

#[test]
fn process_of_an_empty_buffer_is_empty() {
    let plugin = RustVstTemplate::new();
    let gain_multiply = |s: u32, g: u32| (f32::from_bits(s) * f32::from_bits(g)).to_bits();
    let outputs = plugin.process(&Vec::new(), gain_multiply);
    assert!(outputs.is_empty());
}

#[test]
fn parameter_object_shares_the_store() {
    let mut plugin = RustVstTemplate::new();
    plugin.parameters_mut().set_parameter(1, 0.3f32.to_bits());
    let ps = plugin.get_parameter_object();
    assert_eq!(f32::from_bits(ps.get_parameter(1)), 0.3);
    assert_eq!(f32::from_bits(ps.get_parameter(0)), 0.5);
}

#[test]
fn default_matches_the_entry_point_construction() {
    let mut plugin = RustVstTemplate::default();
    assert_eq!(f32::from_bits(plugin.get_parameter_object().get_parameter(0)), 0.5);
    assert!(plugin.get_editor().is_some());
}
