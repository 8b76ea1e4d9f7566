//! Records of the remote API. Apart from the identifier of a shader, which
//! keys the metadata cache, their fields pass through uninterpreted.

use vstd::prelude::*;

verus! {

/// One page of a listing or search.
#[derive(Clone, Debug, PartialEq, Eq)]
pub struct Shaders {
    /// How many shaders match in all, as the server reports it. This may
    /// exceed the number of identifiers on the page.
    pub total: u64,
    /// The identifiers on this page, in the server's rank order.
    pub results: Vec<String>,
}

impl Shaders {
    /// A page with the given total and identifiers, order kept.
    pub fn new(total: u64, results: Vec<String>) -> (page: Shaders)
        ensures
            page.total == total,
            page.results == results,
    {
        Shaders { total, results }
    }

    /// The server-reported number of matching shaders.
    pub fn total(&self) -> (total: u64)
        ensures
            total == self.total,
    {
        self.total
    }

    /// The identifiers on this page, in rank order.
    pub fn results(&self) -> (results: &Vec<String>)
        ensures
            *results == self.results,
    {
        &self.results
    }
}

/// How a texture is sampled. Every field is an uninterpreted token.
#[derive(Clone, Debug, PartialEq, Eq)]
pub struct Sampler {
    pub filter: String,
    pub wrap: String,
    pub vflip: String,
    pub srgb: String,
    pub internal: String,
}

/// An input binding of a render pass.
#[derive(Clone, Debug, PartialEq, Eq)]
pub struct Input {
    pub id: u64,
    /// A media path relative to the media host, or a special token.
    pub src: String,
    pub ctype: String,
    pub channel: u64,
    pub sampler: Sampler,
    pub published: u64,
}

/// An output binding of a render pass.
#[derive(Clone, Debug, PartialEq, Eq)]
pub struct Output {
    pub id: u64,
    pub channel: u64,
}

/// One pass of a shader's pipeline.
#[derive(Clone, Debug, PartialEq, Eq)]
pub struct RenderPass {
    pub inputs: Vec<Input>,
    pub outputs: Vec<Output>,
    pub code: String,
    pub name: String,
    pub description: String,
    /// The stage-type token.
    pub kind: String,
}

/// The descriptive block of a shader.
#[derive(Clone, Debug, PartialEq, Eq)]
pub struct Info {
    /// The identifier under which the shader is requested and cached.
    pub id: String,
    /// The creation date in the server's format.
    pub date: String,
    pub viewed: u64,
    pub name: String,
    pub username: String,
    pub description: String,
    pub likes: u64,
    pub published: u64,
    pub flags: u64,
    pub use_preview: u64,
    pub tags: Vec<String>,
    pub hasliked: u64,
}

/// The full metadata of one shader. The passes run in the order given.
#[derive(Clone, Debug, PartialEq, Eq)]
pub struct Shader {
    pub ver: String,
    pub info: Info,
    pub renderpass: Vec<RenderPass>,
}

impl Shader {
    /// The identifier that the record carries.
    pub open spec fn spec_id(&self) -> Seq<char> {
        self.info.id@
    }

    /// The identifier that the record carries.
    pub fn id(&self) -> (id: &str)
        ensures
            id@ == self.spec_id(),
    {
        self.info.id.as_str()
    }
}

/// The envelope in which the single-shader endpoint wraps its record.
#[derive(Clone, Debug, PartialEq, Eq)]
pub struct ShaderContainer {
    pub shader: Shader,
}

impl ShaderContainer {
    /// Wraps a record.
    pub fn new(shader: Shader) -> (container: ShaderContainer)
        ensures
            container.shader == shader,
    {
        ShaderContainer { shader }
    }

    /// Unwraps the record, unchanged.
    pub fn into_shader(self) -> (shader: Shader)
        ensures
            shader == self.shader,
    {
        self.shader
    }
}

} // verus!
