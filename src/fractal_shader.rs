use vstd::prelude::*;
use vstd::string::StringExecFns;

use crate::decimal::{decimal, push_decimal};
use crate::uniforms::{build_uniform_schema, per_root_uniforms, uniform_schema, uniforms_view, Uniform};

verus! {

/// Vertex stage: maps the quad's texture coordinates onto the complex plane
/// window given by `realRange` and `imagRange`.
pub const VERTEX: &'static str = "#version 300 es
precision highp float;

in vec3 position;
in vec2 texcoord;

out vec2 complex;

uniform mat4 Model;
uniform mat4 Projection;
uniform vec2 realRange;
uniform vec2 imagRange;

void main() {
    gl_Position = Projection * Model * vec4(position, 1);
    complex = vec2(mix(realRange.x, realRange.y, texcoord.x), mix(imagRange.x, imagRange.y, texcoord.y));
}
";

/// Fixed start of the fragment stage: pragmas, complex helpers and the
/// iteration cap.
pub const FRAGMENT_HEADER: &'static str = "#version 300 es

#define cx_mul(a, b) vec2(a.x*b.x-a.y*b.y, a.x*b.y+a.y*b.x)
#define cx_div(a, b) vec2(((a.x*b.x+a.y*b.y)/(b.x*b.x+b.y*b.y)),((a.y*b.x-a.x*b.y)/(b.x*b.x+b.y*b.y)))

precision highp float;
in vec2 complex;
out vec4 fragColor;

uniform int maxIterations;

vec2 cx_pow(vec2 a, float n) {
    float angle = atan(a.y, a.x);
    float r = length(a);
    float real = pow(r, n) * cos(n*angle);
    float im = pow(r, n) * sin(n*angle);
    return vec2(real, im);
}
";

/// Fixed end of the fragment stage: the Newton step, the iteration loop and
/// the entry point.
pub const FRAGMENT_FOOTER: &'static str = "
void newton(inout vec2 z) {
	z = z - cx_div(evaluate_polynomial(z), evaluate_derivative(z));
}

void iterate(inout vec2 z) {
	for (int i = 0; i < maxIterations; i++) {
		newton(z);
	}
}

void main() {
	vec2 z = complex;
	iterate(z);
	closestRoot(z, fragColor);
}
";

/// The three uniform declarations of root `i`: its position, colour and
/// derivative coefficient.
pub open spec fn root_uniform_decls(i: nat) -> Seq<char> {
    "uniform vec2 root"@ + decimal(i) + ";\n"@ + "uniform vec3 color"@ + decimal(i) + ";\n"@
        + "uniform vec2 dcoeff"@ + decimal(i) + ";\n"@
}

/// The per-root uniform declarations of roots `0 .. n`, in index order.
pub open spec fn uniforms_text(n: nat) -> Seq<char>
    decreases n,
{
    if n == 0 {
        Seq::empty()
    } else {
        uniforms_text((n - 1) as nat) + root_uniform_decls((n - 1) as nat)
    }
}

/// Declares, for each of `len` roots, its position, colour and derivative
/// coefficient uniforms.
pub fn build_uniforms(len: usize) -> (r: String)
    ensures
        r@ == uniforms_text(len as nat),
{
    let mut result = String::new();
    let mut i: usize = 0;
    while i < len
        invariant
            i <= len,
            result@ == uniforms_text(i as nat),
        decreases len - i,
    {
        result.append("uniform vec2 root");
        push_decimal(&mut result, i);
        result.append(";\n");
        result.append("uniform vec3 color");
        push_decimal(&mut result, i);
        result.append(";\n");
        result.append("uniform vec2 dcoeff");
        push_decimal(&mut result, i);
        result.append(";\n");
        assert(result@ =~= uniforms_text((i + 1) as nat));
        i += 1;
    }
    result
}

/// Declaration of the distance from `z` to root `i`.
pub open spec fn distance_decl(i: nat) -> Seq<char> {
    "float dist"@ + decimal(i) + " = length(z - root"@ + decimal(i) + ");\n"@
}

/// Distance declarations of roots `0 .. n`.
pub open spec fn distance_decls(n: nat) -> Seq<char>
    decreases n,
{
    if n == 0 {
        Seq::empty()
    } else {
        distance_decls((n - 1) as nat) + distance_decl((n - 1) as nat)
    }
}

/// The test `dist_i < dist_j`, followed by a conjunction unless `j` is the
/// last of `len` roots.
pub open spec fn comparison(i: nat, j: nat, len: nat) -> Seq<char> {
    "dist"@ + decimal(i) + " < dist"@ + decimal(j) + if j + 1 != len {
        " && "@
    } else {
        Seq::<char>::empty()
    }
}

/// The tests of root `i` against the roots `i + 1 .. k`.
pub open spec fn comparisons(i: nat, k: nat, len: nat) -> Seq<char>
    decreases k,
{
    if k <= i + 1 {
        Seq::empty()
    } else {
        comparisons(i, (k - 1) as nat, len) + comparison(i, (k - 1) as nat, len)
    }
}

/// The branch of the cascade that picks the colour of root `i`: guarded by
/// the tests against every later root, unguarded for the last root.
pub open spec fn branch(i: nat, len: nat) -> Seq<char> {
    let last = i + 1 == len;
    (if last {
        Seq::<char>::empty()
    } else {
        "if ("@ + comparisons(i, len, len) + ")"@
    }) + "{\ncolor = vec4(color"@ + decimal(i) + ", 1.0);\n"@ + "}\n"@ + if last {
        Seq::<char>::empty()
    } else {
        "else "@
    }
}

/// The branches of roots `0 .. k` of a cascade over `len` roots.
pub open spec fn branches(k: nat, len: nat) -> Seq<char>
    decreases k,
{
    if k == 0 {
        Seq::empty()
    } else {
        branches((k - 1) as nat, len) + branch((k - 1) as nat, len)
    }
}

/// The `closestRoot` function over `len` roots.
pub open spec fn closest_root_text(len: nat) -> Seq<char> {
    "void closestRoot(vec2 z, out vec4 color) {\n"@ + distance_decls(len) + branches(len, len)
        + "}\n"@
}

/// Appends the branch of root `i` of a cascade over `len` roots.
fn push_branch(result: &mut String, i: usize, len: usize)
    requires
        i < len,
    ensures
        final(result)@ == old(result)@ + branch(i as nat, len as nat),
{
    if i + 1 != len {
        result.append("if (");
        let ghost open = result@;
        let mut j: usize = i + 1;
        while j < len
            invariant
                i < j <= len,
                result@ == open + comparisons(i as nat, j as nat, len as nat),
            decreases len - j,
        {
            result.append("dist");
            push_decimal(result, i);
            result.append(" < dist");
            push_decimal(result, j);
            if j + 1 != len {
                result.append(" && ");
            }
            assert(result@ =~= open + comparisons(i as nat, (j + 1) as nat, len as nat));
            j += 1;
        }
        result.append(")");
    }
    result.append("{\ncolor = vec4(color");
    push_decimal(result, i);
    result.append(", 1.0);\n");
    result.append("}\n");
    if i + 1 != len {
        result.append("else ");
    }
    assert(result@ =~= old(result)@ + branch(i as nat, len as nat));
}

/// Builds `closestRoot`, which sets the output colour to that of the root
/// nearest to `z` through an if / else-if cascade over the root indices.
pub fn build_closes_root(len: usize) -> (r: String)
    ensures
        r@ == closest_root_text(len as nat),
{
    let mut result = String::new();
    result.append("void closestRoot(vec2 z, out vec4 color) {\n");
    let ghost head = result@;
    let mut i: usize = 0;
    while i < len
        invariant
            i <= len,
            result@ == head + distance_decls(i as nat),
        decreases len - i,
    {
        result.append("float dist");
        push_decimal(&mut result, i);
        result.append(" = length(z - root");
        push_decimal(&mut result, i);
        result.append(");\n");
        assert(result@ =~= head + distance_decls((i + 1) as nat));
        i += 1;
    }
    let ghost head = result@;
    let mut i: usize = 0;
    while i < len
        invariant
            i <= len,
            result@ == head + branches(i as nat, len as nat),
        decreases len - i,
    {
        push_branch(&mut result, i, len);
        assert(result@ =~= head + branches((i + 1) as nat, len as nat));
        i += 1;
    }
    result.append("}\n");
    result
}

/// The branch that the `closestRoot` cascade takes, from branch `i` on, when
/// the distances to the roots are `d`: branch `i` is taken when its distance
/// is below that of every later root, the last branch when no earlier one
/// was; each other branch passes on to the next through `else`.
pub open spec fn cascade_choice(d: Seq<int>, i: nat) -> nat
    decreases d.len() - i,
{
    if i + 1 >= d.len() {
        i
    } else if forall|j: int| i < j < d.len() ==> d[i as int] < #[trigger] d[j] {
        i
    } else {
        cascade_choice(d, i + 1)
    }
}

/// The cascade picks a root at minimal distance, and of several roots at
/// that distance the one with the highest index: its distance is at most
/// every other and below that of every later root.
pub proof fn lemma_cascade_picks_last_nearest(d: Seq<int>)
    requires
        d.len() >= 1,
    ensures
        cascade_choice(d, 0) < d.len(),
        forall|j: int| 0 <= j < d.len() ==> d[cascade_choice(d, 0) as int] <= #[trigger] d[j],
        forall|j: int|
            cascade_choice(d, 0) < j < d.len() ==> d[cascade_choice(d, 0) as int] < #[trigger] d[j],
{
    lemma_cascade_from(d, 0);
}

proof fn lemma_cascade_from(d: Seq<int>, i: nat)
    requires
        i < d.len(),
    ensures
        i <= cascade_choice(d, i) < d.len(),
        forall|j: int| i <= j < d.len() ==> d[cascade_choice(d, i) as int] <= #[trigger] d[j],
        forall|j: int|
            cascade_choice(d, i) < j < d.len() ==> d[cascade_choice(d, i) as int] < #[trigger] d[j],
    decreases d.len() - i,
{
    if i + 1 >= d.len() {
    } else if forall|j: int| i < j < d.len() ==> d[i as int] < #[trigger] d[j] {
    } else {
        let w = choose|j: int| i < j < d.len() && !(d[i as int] < #[trigger] d[j]);
        lemma_cascade_from(d, i + 1);
        let k = cascade_choice(d, i + 1);
        assert(d[k as int] <= d[w]);
    }
}

/// `k` copies of `s`.
pub open spec fn repeat(s: Seq<char>, k: nat) -> Seq<char>
    decreases k,
{
    if k == 0 {
        Seq::empty()
    } else {
        repeat(s, (k - 1) as nat) + s
    }
}

/// The factors `(z - root_i)` for `1 <= i < k`, each closing one product.
pub open spec fn later_factors(k: nat) -> Seq<char>
    decreases k,
{
    if k <= 1 {
        Seq::empty()
    } else {
        later_factors((k - 1) as nat) + ", (z - root"@ + decimal((k - 1) as nat) + "))"@
    }
}

/// The `evaluate_polynomial` function: the product of `(z - root_i)` over
/// the `len` roots, as nested complex products.
pub open spec fn evaluate_polynomial_text(len: nat) -> Seq<char> {
    "vec2 evaluate_polynomial(vec2 z) {\nreturn "@ + repeat("cx_mul("@, (len - 1) as nat)
        + "(z - root0)"@ + later_factors(len) + ";\n}\n"@
}

/// Builds `evaluate_polynomial`, the monic polynomial whose roots are the
/// `len` root uniforms.
pub fn build_evaluate_polynomial(len: usize) -> (r: String)
    requires
        len >= 1,
    ensures
        r@ == evaluate_polynomial_text(len as nat),
{
    let mut result = String::new();
    result.append("vec2 evaluate_polynomial(vec2 z) {\nreturn ");
    let ghost head = result@;
    let mut i: usize = 0;
    while i < len - 1
        invariant
            len >= 1,
            i <= len - 1,
            result@ == head + repeat("cx_mul("@, i as nat),
        decreases len - 1 - i,
    {
        result.append("cx_mul(");
        assert(result@ =~= head + repeat("cx_mul("@, (i + 1) as nat));
        i += 1;
    }
    result.append("(z - root0)");
    let ghost head = result@;
    let mut i: usize = 1;
    while i < len
        invariant
            1 <= i <= len,
            result@ == head + later_factors(i as nat),
        decreases len - i,
    {
        result.append(", (z - root");
        push_decimal(&mut result, i);
        result.append("))");
        assert(result@ =~= head + later_factors((i + 1) as nat));
        i += 1;
    }
    result.append(";\n}\n");
    assert(result@ =~= evaluate_polynomial_text(len as nat));
    result
}

/// The term of derivative coefficient `i` among `len`: the coefficient times
/// `z` to the power `len - 1 - i`; a bare coefficient for power 0, a plain
/// product for power 1, the power helper above that.
pub open spec fn derivative_term(i: nat, len: nat) -> Seq<char> {
    let e = len - 1 - i;
    if e == 0 {
        "dcoeff"@ + decimal(i)
    } else if e == 1 {
        "cx_mul(dcoeff"@ + decimal(i) + ", z)"@
    } else {
        "cx_mul(dcoeff"@ + decimal(i) + ", cx_pow(z, "@ + decimal(e as nat) + ".0))"@
    }
}

/// The sum of the terms `0 .. k` of a derivative with `len` coefficients.
pub open spec fn derivative_terms(k: nat, len: nat) -> Seq<char>
    decreases k,
{
    if k == 0 {
        Seq::empty()
    } else {
        derivative_terms((k - 1) as nat, len) + (if k - 1 != 0 {
            "+"@
        } else {
            Seq::<char>::empty()
        }) + derivative_term((k - 1) as nat, len)
    }
}

/// The `evaluate_derivative` function over `len` derivative coefficients.
pub open spec fn evaluate_derivative_text(len: nat) -> Seq<char> {
    "vec2 evaluate_derivative(vec2 z) {\nreturn "@ + derivative_terms(len, len) + ";\n}\n"@
}

/// Appends the term of derivative coefficient `i` among `len`.
fn push_derivative_term(result: &mut String, i: usize, len: usize)
    requires
        i < len,
    ensures
        final(result)@ == old(result)@ + derivative_term(i as nat, len as nat),
{
    if i == len - 1 {
        result.append("dcoeff");
        push_decimal(result, i);
    } else if i == len - 2 {
        result.append("cx_mul(dcoeff");
        push_decimal(result, i);
        result.append(", z)");
    } else {
        result.append("cx_mul(dcoeff");
        push_decimal(result, i);
        result.append(", cx_pow(z, ");
        push_decimal(result, len - i - 1);
        result.append(".0))");
    }
    assert(result@ =~= old(result)@ + derivative_term(i as nat, len as nat));
}

/// Builds `evaluate_derivative`, the power series
/// `dcoeff0 * z^(len-1) + ... + dcoeff(len-1)`.
pub fn build_derivative_evaluation(len: usize) -> (r: String)
    ensures
        r@ == evaluate_derivative_text(len as nat),
{
    let mut result = String::new();
    result.append("vec2 evaluate_derivative(vec2 z) {\nreturn ");
    let ghost head = result@;
    let mut i: usize = 0;
    while i < len
        invariant
            i <= len,
            result@ == head + derivative_terms(i as nat, len as nat),
        decreases len - i,
    {
        if i != 0 {
            result.append("+");
        }
        push_derivative_term(&mut result, i, len);
        assert(result@ =~= head + derivative_terms((i + 1) as nat, len as nat));
        i += 1;
    }
    result.append(";\n}\n");
    result
}

/// The whole fragment stage for `len` roots.
pub open spec fn fragment_text(len: nat) -> Seq<char> {
    FRAGMENT_HEADER@ + uniforms_text(len) + closest_root_text(len) + evaluate_polynomial_text(len)
        + evaluate_derivative_text(len) + FRAGMENT_FOOTER@
}

/// Builds the fragment stage for `len` roots.
pub fn build_fragment_shader(len: usize) -> (r: String)
    requires
        len >= 1,
    ensures
        r@ == fragment_text(len as nat),
{
    let mut result = String::new();
    result.append(FRAGMENT_HEADER);
    let part = build_uniforms(len);
    result.append(part.as_str());
    let part = build_closes_root(len);
    result.append(part.as_str());
    let part = build_evaluate_polynomial(len);
    result.append(part.as_str());
    let part = build_derivative_evaluation(len);
    result.append(part.as_str());
    result.append(FRAGMENT_FOOTER);
    assert(result@ =~= fragment_text(len as nat));
    result
}

/// Everything the graphics runtime needs to create the program for a given
/// number of roots: the two stages' source text and the uniform schema.
#[derive(Clone, Debug, PartialEq, Eq)]
pub struct ShaderSource {
    pub vertex: String,
    pub fragment: String,
    pub uniforms: Vec<Uniform>,
}

impl ShaderSource {
    /// `self` is the program source for `n` roots.
    pub open spec fn is_source_for(&self, n: nat) -> bool {
        &&& self.vertex@ == VERTEX@
        &&& self.fragment@ == fragment_text(n)
        &&& uniforms_view(self.uniforms@) == uniform_schema(n)
    }
}

/// Synthesizes the program source for `len` roots.
pub fn shader_source(len: usize) -> (r: ShaderSource)
    requires
        len >= 1,
    ensures
        r.is_source_for(len as nat),
        r.uniforms@.len() == 3 + 3 * len,
{
    let r = ShaderSource {
        vertex: String::from_str(VERTEX),
        fragment: build_fragment_shader(len),
        uniforms: build_uniform_schema(len),
    };
    proof {
        lemma_uniform_count(len as nat);
    }
    r
}

/// A program for `n` roots binds `3 + 3n` uniforms: the iteration cap, the
/// two view ranges, and three per root.
pub proof fn lemma_uniform_count(n: nat)
    ensures
        uniform_schema(n).len() == 3 + 3 * n,
    decreases n,
{
    if n > 0 {
        lemma_uniform_count((n - 1) as nat);
    }
}

/// Synthesis is a function of the root count alone: any two sources
/// synthesized for the same count have the same text and the same ordered
/// uniform list.
pub proof fn lemma_synthesis_deterministic(a: ShaderSource, b: ShaderSource, n: nat)
    requires
        a.is_source_for(n),
        b.is_source_for(n),
    ensures
        a.vertex@ == b.vertex@,
        a.fragment@ == b.fragment@,
        uniforms_view(a.uniforms@) == uniforms_view(b.uniforms@),
{
}

} // verus!
