// Builder generation for records with named fields.
//
// `record` holds the derive's input model and field extraction, `synth` the generated
// builder model, `render` the generated source text, and `value` the behaviour of a
// generated builder at run time: its factory and its setters.

pub mod record;
pub mod render;
pub mod synth;
pub mod value;
