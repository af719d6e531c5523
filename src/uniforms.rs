use vstd::prelude::*;
use vstd::string::StringExecFns;

use crate::decimal::{decimal, push_decimal};

verus! {

/// Name of the iteration-cap uniform.
pub const MAX_ITERATIONS: &'static str = "maxIterations";

/// Name of the uniform holding the real-axis interval of the view.
pub const REAL_RANGE: &'static str = "realRange";

/// Name of the uniform holding the imaginary-axis interval of the view.
pub const IMAG_RANGE: &'static str = "imagRange";

/// The value type of a uniform.
#[derive(Clone, Copy, Debug, PartialEq, Eq)]
pub enum UniformKind {
    /// One integer.
    Int1,
    /// A 2-vector of floats.
    Float2,
    /// A 3-vector of floats.
    Float3,
}

/// A uniform the host binds for a program: its name and value type.
#[derive(Clone, Debug, PartialEq, Eq)]
pub struct Uniform {
    pub name: String,
    pub kind: UniformKind,
}

impl View for Uniform {
    type V = (Seq<char>, UniformKind);

    open spec fn view(&self) -> (Seq<char>, UniformKind) {
        (self.name@, self.kind)
    }
}

/// The uniforms of a list, as (name, kind) pairs.
pub open spec fn uniforms_view(u: Seq<Uniform>) -> Seq<(Seq<char>, UniformKind)> {
    u.map_values(|x: Uniform| x@)
}

/// Name of the position uniform of root `i`.
pub open spec fn root_name(i: nat) -> Seq<char> {
    "root"@ + decimal(i)
}

/// Name of the colour uniform of root `i`.
pub open spec fn color_name(i: nat) -> Seq<char> {
    "color"@ + decimal(i)
}

/// Name of the derivative-coefficient uniform of index `i`.
pub open spec fn dcoeff_name(i: nat) -> Seq<char> {
    "dcoeff"@ + decimal(i)
}

/// The three uniforms of root `i`.
pub open spec fn root_uniforms(i: nat) -> Seq<(Seq<char>, UniformKind)> {
    seq![
        (root_name(i), UniformKind::Float2),
        (color_name(i), UniformKind::Float3),
        (dcoeff_name(i), UniformKind::Float2),
    ]
}

/// The uniforms of roots `0 .. n`, in index order.
pub open spec fn per_root_uniforms(n: nat) -> Seq<(Seq<char>, UniformKind)>
    decreases n,
{
    if n == 0 {
        Seq::empty()
    } else {
        per_root_uniforms((n - 1) as nat) + root_uniforms((n - 1) as nat)
    }
}

/// The ordered uniform schema of a program for `n` roots: the iteration cap,
/// the two view ranges, then position, colour and derivative coefficient of
/// each root.
pub open spec fn uniform_schema(n: nat) -> Seq<(Seq<char>, UniformKind)> {
    seq![
        (MAX_ITERATIONS@, UniformKind::Int1),
        (REAL_RANGE@, UniformKind::Float2),
        (IMAG_RANGE@, UniformKind::Float2),
    ] + per_root_uniforms(n)
}

/// The name of the position uniform of root `i`.
pub fn root_uniform_name(i: usize) -> (r: String)
    ensures
        r@ == root_name(i as nat),
{
    let mut r = String::from_str("root");
    push_decimal(&mut r, i);
    r
}

/// The name of the colour uniform of root `i`.
pub fn color_uniform_name(i: usize) -> (r: String)
    ensures
        r@ == color_name(i as nat),
{
    let mut r = String::from_str("color");
    push_decimal(&mut r, i);
    r
}

/// The name of the derivative-coefficient uniform of index `i`.
pub fn dcoeff_uniform_name(i: usize) -> (r: String)
    ensures
        r@ == dcoeff_name(i as nat),
{
    let mut r = String::from_str("dcoeff");
    push_decimal(&mut r, i);
    r
}

/// Builds the uniform schema of a program for `len` roots.
pub fn build_uniform_schema(len: usize) -> (r: Vec<Uniform>)
    ensures
        uniforms_view(r@) == uniform_schema(len as nat),
{
    let mut params: Vec<Uniform> = Vec::new();
    params.push(Uniform { name: String::from_str(MAX_ITERATIONS), kind: UniformKind::Int1 });
    params.push(Uniform { name: String::from_str(REAL_RANGE), kind: UniformKind::Float2 });
    params.push(Uniform { name: String::from_str(IMAG_RANGE), kind: UniformKind::Float2 });
    let ghost fixed = seq![
        (MAX_ITERATIONS@, UniformKind::Int1),
        (REAL_RANGE@, UniformKind::Float2),
        (IMAG_RANGE@, UniformKind::Float2),
    ];
    assert(uniforms_view(params@) =~= fixed);
    let mut i: usize = 0;
    while i < len
        invariant
            i <= len,
            uniforms_view(params@) == fixed + per_root_uniforms(i as nat),
        decreases len - i,
    {
        let ghost before = params@;
        params.push(Uniform { name: root_uniform_name(i), kind: UniformKind::Float2 });
        params.push(Uniform { name: color_uniform_name(i), kind: UniformKind::Float3 });
        params.push(Uniform { name: dcoeff_uniform_name(i), kind: UniformKind::Float2 });
        assert(uniforms_view(params@) =~= uniforms_view(before) + root_uniforms(i as nat));
        assert(uniforms_view(params@) =~= fixed + per_root_uniforms((i + 1) as nat));
        i += 1;
    }
    params
}

} // verus!
