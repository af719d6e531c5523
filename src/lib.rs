//! Newton fractal core: synthesis of a fragment program, sized by the number
//! of roots, that colours each point of the complex plane by the root that
//! Newton's method takes it to, together with the uniform schema the program
//! needs and the model that keeps roots, colours and program in step.
mod decimal;
mod fractal_shader;
mod newtonfractal;
mod uniforms;

pub use decimal::{decimal, push_decimal};
pub use fractal_shader::{
    branch, branches, build_closes_root, build_derivative_evaluation, build_evaluate_polynomial,
    build_fragment_shader, build_uniforms, cascade_choice, closest_root_text, comparison,
    comparisons, derivative_term, derivative_terms, distance_decl, distance_decls,
    evaluate_derivative_text, evaluate_polynomial_text, fragment_text,
    lemma_cascade_picks_last_nearest, lemma_synthesis_deterministic, lemma_uniform_count,
    later_factors, repeat, root_uniform_decls, shader_source, uniforms_text, ShaderSource,
    FRAGMENT_FOOTER, FRAGMENT_HEADER, VERTEX,
};
pub use newtonfractal::{lemma_schema_follows_roots, refused, FractalError, NewtonFractal};
pub use uniforms::{
    build_uniform_schema, color_name, color_uniform_name, dcoeff_name, dcoeff_uniform_name,
    per_root_uniforms, root_name, root_uniform_name, root_uniforms, uniform_schema, uniforms_view,
    Uniform, UniformKind, IMAG_RANGE, MAX_ITERATIONS, REAL_RANGE,
};
