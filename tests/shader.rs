use newton_fractal::{
    build_closes_root, build_derivative_evaluation, build_evaluate_polynomial,
    build_fragment_shader, build_uniform_schema, build_uniforms, color_uniform_name,
    dcoeff_uniform_name, push_decimal, root_uniform_name, shader_source, Uniform, UniformKind,
    FRAGMENT_FOOTER, FRAGMENT_HEADER, VERTEX,
};

fn decimal_of(n: usize) -> String {
    let mut s = String::from("n=");
    push_decimal(&mut s, n);
    s
}

#[test]
fn decimal_digits() {
    assert_eq!(decimal_of(0), "n=0");
    assert_eq!(decimal_of(7), "n=7");
    assert_eq!(decimal_of(10), "n=10");
    assert_eq!(decimal_of(123), "n=123");
    assert_eq!(decimal_of(4000), "n=4000");
    assert_eq!(decimal_of(usize::MAX), format!("n={}", usize::MAX));
}

#[test]
fn uniform_names() {
    assert_eq!(root_uniform_name(0), "root0");
    assert_eq!(color_uniform_name(3), "color3");
    assert_eq!(dcoeff_uniform_name(12), "dcoeff12");
}

#[test]
fn uniforms_two_roots() {
    assert_eq!(
        build_uniforms(2),
        "uniform vec2 root0;\nuniform vec3 color0;\nuniform vec2 dcoeff0;\nuniform vec2 root1;\nuniform vec3 color1;\nuniform vec2 dcoeff1;\n"
    );
}

#[test]
fn uniforms_no_root() {
    assert_eq!(build_uniforms(0), "");
}

#[test]
fn closest_root_one_root() {
    assert_eq!(
        build_closes_root(1),
        "void closestRoot(vec2 z, out vec4 color) {\nfloat dist0 = length(z - root0);\n{\ncolor = vec4(color0, 1.0);\n}\n}\n"
    );
}

#[test]
fn closest_root_two_roots() {
    assert_eq!(
        build_closes_root(2),
        "void closestRoot(vec2 z, out vec4 color) {\nfloat dist0 = length(z - root0);\nfloat dist1 = length(z - root1);\nif (dist0 < dist1){\ncolor = vec4(color0, 1.0);\n}\nelse {\ncolor = vec4(color1, 1.0);\n}\n}\n"
    );
}

#[test]
fn closest_root_three_roots() {
    assert_eq!(
        build_closes_root(3),
        "void closestRoot(vec2 z, out vec4 color) {\nfloat dist0 = length(z - root0);\nfloat dist1 = length(z - root1);\nfloat dist2 = length(z - root2);\nif (dist0 < dist1 && dist0 < dist2){\ncolor = vec4(color0, 1.0);\n}\nelse if (dist1 < dist2){\ncolor = vec4(color1, 1.0);\n}\nelse {\ncolor = vec4(color2, 1.0);\n}\n}\n"
    );
}

#[test]
fn closest_root_has_one_unguarded_branch() {
    let text = build_closes_root(6);
    assert_eq!(text.matches("color = vec4(").count(), 6);
    assert_eq!(text.matches("else ").count(), 5);
    assert_eq!(text.matches("if (").count(), 5);
    assert!(text.contains("else if (dist4 < dist5){\ncolor = vec4(color4, 1.0);\n}\nelse {\ncolor = vec4(color5, 1.0);\n}\n}\n"));
}

#[test]
fn polynomial_one_root() {
    assert_eq!(
        build_evaluate_polynomial(1),
        "vec2 evaluate_polynomial(vec2 z) {\nreturn (z - root0);\n}\n"
    );
}

#[test]
fn polynomial_three_roots() {
    assert_eq!(
        build_evaluate_polynomial(3),
        "vec2 evaluate_polynomial(vec2 z) {\nreturn cx_mul(cx_mul((z - root0), (z - root1)), (z - root2));\n}\n"
    );
}

#[test]
fn derivative_one_coefficient() {
    assert_eq!(
        build_derivative_evaluation(1),
        "vec2 evaluate_derivative(vec2 z) {\nreturn dcoeff0;\n}\n"
    );
}

#[test]
fn derivative_two_coefficients() {
    assert_eq!(
        build_derivative_evaluation(2),
        "vec2 evaluate_derivative(vec2 z) {\nreturn cx_mul(dcoeff0, z)+dcoeff1;\n}\n"
    );
}

#[test]
fn derivative_four_coefficients() {
    assert_eq!(
        build_derivative_evaluation(4),
        "vec2 evaluate_derivative(vec2 z) {\nreturn cx_mul(dcoeff0, cx_pow(z, 3.0))+cx_mul(dcoeff1, cx_pow(z, 2.0))+cx_mul(dcoeff2, z)+dcoeff3;\n}\n"
    );
}

#[test]
fn derivative_twelve_coefficients() {
    assert_eq!(
        build_derivative_evaluation(12),
        "vec2 evaluate_derivative(vec2 z) {\nreturn cx_mul(dcoeff0, cx_pow(z, 11.0))+cx_mul(dcoeff1, cx_pow(z, 10.0))+cx_mul(dcoeff2, cx_pow(z, 9.0))+cx_mul(dcoeff3, cx_pow(z, 8.0))+cx_mul(dcoeff4, cx_pow(z, 7.0))+cx_mul(dcoeff5, cx_pow(z, 6.0))+cx_mul(dcoeff6, cx_pow(z, 5.0))+cx_mul(dcoeff7, cx_pow(z, 4.0))+cx_mul(dcoeff8, cx_pow(z, 3.0))+cx_mul(dcoeff9, cx_pow(z, 2.0))+cx_mul(dcoeff10, z)+dcoeff11;\n}\n"
    );
}

#[test]
fn fragment_is_parts_in_order() {
    for n in 1..6 {
        let expected = format!(
            "{}{}{}{}{}{}",
            FRAGMENT_HEADER,
            build_uniforms(n),
            build_closes_root(n),
            build_evaluate_polynomial(n),
            build_derivative_evaluation(n),
            FRAGMENT_FOOTER
        );
        assert_eq!(build_fragment_shader(n), expected);
    }
}

#[test]
fn fragment_declares_iteration_cap_once() {
    let text = build_fragment_shader(3);
    assert!(text.starts_with("#version 300 es\n"));
    assert_eq!(text.matches("uniform int maxIterations;").count(), 1);
    assert!(text.ends_with("closestRoot(z, fragColor);\n}\n"));
}

#[test]
fn synthesis_is_deterministic() {
    for n in 1..8 {
        let a = shader_source(n);
        let b = shader_source(n);
        assert_eq!(a, b);
        assert_eq!(a.fragment, b.fragment);
        assert_eq!(a.uniforms, b.uniforms);
    }
}

#[test]
fn source_holds_both_stages() {
    let s = shader_source(2);
    assert_eq!(s.vertex, VERTEX);
    assert_eq!(s.fragment, build_fragment_shader(2));
    assert_eq!(s.uniforms, build_uniform_schema(2));
}

#[test]
fn uniform_count_is_three_plus_three_per_root() {
    for n in 1..20 {
        assert_eq!(shader_source(n).uniforms.len(), 3 + 3 * n);
        assert_eq!(build_uniform_schema(n).len(), 3 + 3 * n);
    }
    assert_eq!(build_uniform_schema(0).len(), 3);
}

#[test]
fn uniform_schema_order() {
    let u = |name: &str, kind: UniformKind| Uniform { name: name.to_string(), kind };
    assert_eq!(
        build_uniform_schema(2),
        vec![
            u("maxIterations", UniformKind::Int1),
            u("realRange", UniformKind::Float2),
            u("imagRange", UniformKind::Float2),
            u("root0", UniformKind::Float2),
            u("color0", UniformKind::Float3),
            u("dcoeff0", UniformKind::Float2),
            u("root1", UniformKind::Float2),
            u("color1", UniformKind::Float3),
            u("dcoeff1", UniformKind::Float2),
        ]
    );
}

#[test]
fn schema_names_match_declarations() {
    let s = shader_source(4);
    for uniform in s.uniforms.iter().skip(3) {
        let ty = match uniform.kind {
            UniformKind::Int1 => "int",
            UniformKind::Float2 => "vec2",
            UniformKind::Float3 => "vec3",
        };
        let decl = format!("uniform {} {};\n", ty, uniform.name);
        assert!(s.fragment.contains(&decl), "{}", decl);
    }
    assert!(s.fragment.contains("uniform int maxIterations;\n"));
    assert!(s.vertex.contains("uniform vec2 realRange;\n"));
    assert!(s.vertex.contains("uniform vec2 imagRange;\n"));
}
