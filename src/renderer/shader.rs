//! Shader sources awaiting compilation.
use vstd::prelude::*;

verus! {

/// A shader's source text, the name of its entry point and the file it was
/// read from.
#[derive(Debug, PartialEq, Eq)]
pub struct Shader {
    source_code: String,
    entry_point: String,
    shader_file_name: String,
}

impl Shader {
    pub fn new(source_code: String, entry_point: String, shader_file_name: String) -> (r: Shader)
        ensures
            r.source_code() == source_code@,
            r.entry_point() == entry_point@,
            r.shader_file_name() == shader_file_name@,
    {
        Shader { source_code, entry_point, shader_file_name }
    }

    pub closed spec fn source_code(&self) -> Seq<char> {
        self.source_code@
    }

    pub closed spec fn entry_point(&self) -> Seq<char> {
        self.entry_point@
    }

    pub closed spec fn shader_file_name(&self) -> Seq<char> {
        self.shader_file_name@
    }

    pub fn get_source_code(&self) -> (r: &str)
        ensures
            r@ == self.source_code(),
    {
        self.source_code.as_str()
    }

    pub fn get_entry_point(&self) -> (r: &str)
        ensures
            r@ == self.entry_point(),
    {
        self.entry_point.as_str()
    }

    pub fn get_shader_file_name(&self) -> (r: &str)
        ensures
            r@ == self.shader_file_name(),
    {
        self.shader_file_name.as_str()
    }
}

} // verus!
