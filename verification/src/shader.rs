//! The effect's WebGL2 program: its shaders, how they are compiled and linked,
//! and the uniforms it must expose. The calls into the browser's WebGL2 context go
//! through `web-sys`; what they return depends on the browser and its GPU driver,
//! so the wrappers state nothing of it and the verified code handles every outcome.

use vstd::prelude::*;
use wasm_bindgen::JsValue;
use web_sys::{WebGl2RenderingContext, WebGlProgram, WebGlShader, WebGlUniformLocation};

use crate::js::js_as_bool;
use crate::observed::{create_shader, uniform_location, ShaderCreation, UniformAnswer};
use crate::setup::{resolve_string, text_option};

verus! {

#[verifier::external_type_specification]
#[verifier::external_body]
pub struct ExWebGl2RenderingContext(WebGl2RenderingContext);

#[verifier::external_type_specification]
#[verifier::external_body]
pub struct ExWebGlShader(WebGlShader);

#[verifier::external_type_specification]
#[verifier::external_body]
pub struct ExWebGlProgram(WebGlProgram);

#[verifier::external_type_specification]
#[verifier::external_body]
pub struct ExWebGlUniformLocation(WebGlUniformLocation);

/// WebGL's `VERTEX_SHADER` shader type.
pub const VERTEX_SHADER: u32 = 35633;

/// WebGL's `FRAGMENT_SHADER` shader type.
pub const FRAGMENT_SHADER: u32 = 35632;

/// WebGL's `COMPILE_STATUS` shader parameter.
pub const COMPILE_STATUS: u32 = 35713;

/// WebGL's `LINK_STATUS` program parameter.
pub const LINK_STATUS: u32 = 35714;

/// The vertex shader: a full-screen quad that hands each fragment its position in
/// the unit square.
pub const VERT_SRC: &'static str = r#"#version 300 es
layout(location = 0) in vec2 aPos;
out vec2 vUv;
void main() {
    vUv = aPos * 0.5 + 0.5;
    gl_Position = vec4(aPos, 0.0, 1.0);
}
"#;

/// The fragment shader: a rounded-rectangle mask, a rim light along the edge, a
/// highlight that follows the pointer, a diagonal refraction sweep, a gentle
/// "breathing" of the surface and chromatic aberration near the edges.
pub const FRAG_SRC: &'static str = r#"#version 300 es
precision highp float;
in vec2 vUv;
out vec4 fragColor;

uniform vec2  uResolution;
uniform float uRadius;
uniform float uBorder;
uniform float uTime;
uniform vec2  uMouse;
uniform float uIntensity;
uniform vec3  uTint;

float sdRoundRect(vec2 p, vec2 halfSize, float r) {
    vec2 q = abs(p) - halfSize + r;
    return length(max(q, 0.0)) + min(max(q.x, q.y), 0.0) - r;
}

void main() {
    vec2 res = uResolution;
    vec2 p = vUv * res;
    vec2 center = res * 0.5;
    float d = sdRoundRect(p - center, res * 0.5, uRadius);

    // За пределами скруглённого прямоугольника — полностью прозрачно.
    if (d > 1.0) { discard; }

    // Лёгкое "дыхание" поверхности жидкости.
    float wobble = sin(uTime * 0.6 + p.x * 0.02) * cos(uTime * 0.5 + p.y * 0.02);

    // Кромка (rim light) — светлая полоска по краю стекла.
    float rim = 1.0 - clamp(abs(d) / max(uBorder, 1.0), 0.0, 1.0);
    rim = pow(rim, 2.0);

    // Блик, следующий за курсором (или плавающий, если мышь не задана).
    vec2 mousePx = vec2(uMouse.x, 1.0 - uMouse.y) * res;
    float distToMouse = length(p - mousePx);
    float spec = smoothstep(res.x * 0.4, 0.0, distToMouse) * 0.65;

    // Диагональный "блик преломления", как на реальном стекле.
    vec2 sweepDir = normalize(vec2(1.0, -0.6));
    float sweep = dot(p - center, sweepDir) / max(res.x, res.y);
    float sweepLight = smoothstep(0.18, 0.0, abs(sweep - sin(uTime * 0.3) * 0.35)) * 0.22;

    float highlight = (rim * 0.55 + spec + sweepLight + wobble * 0.03) * uIntensity;

    // Хроматическая аберрация у краёв — усиливает ощущение преломления света.
    float ab = rim * 1.6;
    vec3 col = uTint + vec3(highlight);
    col.r += ab * 0.025;
    col.b -= ab * 0.025;

    float alpha = clamp(0.06 + highlight * 0.55, 0.0, 0.9);
    float edgeAA = 1.0 - smoothstep(-1.5, 1.0, d);
    alpha *= edgeAA;

    fragColor = vec4(col * alpha, alpha);
}
"#;

/// Calls `WebGl2RenderingContext::create_shader`: a new shader object of type
/// `kind`, or `None` when the context cannot make one. Nothing is stated of the result.
#[verifier::external_body]
pub(crate) fn gl_create_shader(gl: &WebGl2RenderingContext, kind: u32) -> Option<WebGlShader> {
    gl.create_shader(kind)
}

/// Calls `WebGl2RenderingContext::shader_source`, which sets the shader's source text.
#[verifier::external_body]
fn gl_shader_source(gl: &WebGl2RenderingContext, shader: &WebGlShader, source: &str) {
    gl.shader_source(shader, source)
}

/// Calls `WebGl2RenderingContext::compile_shader`.
#[verifier::external_body]
fn gl_compile_shader(gl: &WebGl2RenderingContext, shader: &WebGlShader) {
    gl.compile_shader(shader)
}

/// Calls `WebGl2RenderingContext::get_shader_parameter`: the value of parameter
/// `pname` of the shader. Nothing is stated of the result.
#[verifier::external_body]
fn gl_get_shader_parameter(gl: &WebGl2RenderingContext, shader: &WebGlShader, pname: u32) -> JsValue {
    gl.get_shader_parameter(shader, pname)
}

/// Calls `WebGl2RenderingContext::get_shader_info_log`: the compiler's log for the
/// shader, if any. Nothing is stated of the result.
#[verifier::external_body]
fn gl_get_shader_info_log(gl: &WebGl2RenderingContext, shader: &WebGlShader) -> Option<String> {
    gl.get_shader_info_log(shader)
}

/// Calls `WebGl2RenderingContext::create_program`: a new program object, or `None`
/// when the context cannot make one. Nothing is stated of the result.
#[verifier::external_body]
fn gl_create_program(gl: &WebGl2RenderingContext) -> Option<WebGlProgram> {
    gl.create_program()
}

/// Calls `WebGl2RenderingContext::attach_shader`.
#[verifier::external_body]
fn gl_attach_shader(gl: &WebGl2RenderingContext, program: &WebGlProgram, shader: &WebGlShader) {
    gl.attach_shader(program, shader)
}

/// Calls `WebGl2RenderingContext::link_program`.
#[verifier::external_body]
fn gl_link_program(gl: &WebGl2RenderingContext, program: &WebGlProgram) {
    gl.link_program(program)
}

/// Calls `WebGl2RenderingContext::get_program_parameter`: the value of parameter
/// `pname` of the program. Nothing is stated of the result.
#[verifier::external_body]
fn gl_get_program_parameter(gl: &WebGl2RenderingContext, program: &WebGlProgram, pname: u32) -> JsValue {
    gl.get_program_parameter(program, pname)
}

/// Calls `WebGl2RenderingContext::get_program_info_log`: the linker's log for the
/// program, if any. Nothing is stated of the result.
#[verifier::external_body]
fn gl_get_program_info_log(gl: &WebGl2RenderingContext, program: &WebGlProgram) -> Option<String> {
    gl.get_program_info_log(program)
}

/// Calls `WebGl2RenderingContext::get_uniform_location`: where the program keeps
/// uniform `name`, or `None` when it has no such active uniform. Nothing is stated
/// of the result.
#[verifier::external_body]
pub(crate) fn gl_get_uniform_location(gl: &WebGl2RenderingContext, program: &WebGlProgram, name: &str) -> Option<WebGlUniformLocation> {
    gl.get_uniform_location(program, name)
}

/// Whether a reported status counts as success: only a boolean `true` does.
pub fn status_ok(reported: Option<bool>) -> (ok: bool)
    ensures
        ok == (reported == Some(true)),
{
    match reported {
        Some(b) => b,
        None => false,
    }
}

/// A result whose error is a text, with the text as its view.
pub open spec fn text_result<T>(r: Result<T, String>) -> Result<T, Seq<char>> {
    match r {
        Ok(v) => Ok(v),
        Err(e) => Err(e@),
    }
}

/// How making a WebGL object ends: `not_created` when the context made none;
/// the object when the status it reported is the boolean `true`; otherwise the
/// log, or `unknown` when there is none.
pub open spec fn spec_gl_outcome<T>(
    created: Option<T>,
    status: Option<bool>,
    log: Option<Seq<char>>,
    not_created: Seq<char>,
    unknown: Seq<char>,
) -> Result<T, Seq<char>> {
    match created {
        None => Err(not_created),
        Some(obj) => if status == Some(true) {
            Ok(obj)
        } else {
            Err(
                match log {
                    Some(l) => l,
                    None => unknown,
                },
            )
        },
    }
}

/// Decides how making a WebGL object ends, from what the context gave back: the
/// object created (if any), the status it reported and its log.
pub fn gl_outcome<T>(
    created: Option<T>,
    status: Option<bool>,
    log: Option<String>,
    not_created: &str,
    unknown: &str,
) -> (r: Result<T, String>)
    ensures
        text_result(r) == spec_gl_outcome(created, status, text_option(log), not_created@, unknown@),
{
    match created {
        None => Err(not_created.to_owned()),
        Some(obj) => if status_ok(status) {
            Ok(obj)
        } else {
            Err(resolve_string(log, unknown))
        },
    }
}

/// What the context gave back while a shader was made: the type and source the
/// shader was made from, the record of the request that created it, the shader
/// object created (if any), the compile status reported, and the compiler's log
/// (read only when compiling did not succeed).
pub struct ShaderReport {
    pub kind: u32,
    pub creation: ShaderCreation,
    pub source: Seq<char>,
    pub created: Option<WebGlShader>,
    pub status: Option<bool>,
    pub log: Option<Seq<char>>,
}

/// What the context gave back while a program was made: the two shaders attached,
/// in that order, the program object created (if any), the link status reported,
/// and the linker's log (read only when linking did not succeed).
pub struct ProgramReport {
    pub vertex: WebGlShader,
    pub fragment: WebGlShader,
    pub created: Option<WebGlProgram>,
    pub status: Option<bool>,
    pub log: Option<Seq<char>>,
}

/// How compiling a shader ends: "cannot create shader" when no shader object was
/// made; the shader when the compile status is the boolean `true`; otherwise the
/// compiler's log, or "unknown shader error" when there is none.
pub open spec fn shader_outcome(rep: ShaderReport) -> Result<WebGlShader, Seq<char>> {
    spec_gl_outcome(rep.created, rep.status, rep.log, "cannot create shader"@, "unknown shader error"@)
}

/// How linking a program ends: "cannot create program" when no program object was
/// made; the program when the link status is the boolean `true`; otherwise the
/// linker's log, or "unknown program error" when there is none.
pub open spec fn program_outcome(rep: ProgramReport) -> Result<WebGlProgram, Seq<char>> {
    spec_gl_outcome(rep.created, rep.status, rep.log, "cannot create program"@, "unknown program error"@)
}

/// Creates a shader of type `kind` from `source` and compiles it. The result is
/// `shader_outcome` of what the context gave back; the report returned beside it
/// records that, with the type and source used.
pub fn compile_shader(gl: &WebGl2RenderingContext, kind: u32, source: &str) -> (r: (
    Result<WebGlShader, String>,
    Ghost<ShaderReport>,
))
    ensures
        r.1@.kind == kind,
        r.1@.source == source@,
        r.1@.creation.kind() == kind,
        r.1@.creation.shader() == r.1@.created,
        r.1@.created is None ==> r.1@.status is None && r.1@.log is None,
        text_result(r.0) == shader_outcome(r.1@),
        r.0 matches Ok(s) ==> r.1@.creation.kind() == kind && r.1@.creation.shader() == Some(s),
{
    let (created, Ghost(creation)) = create_shader(gl, kind);
    let shader = match created {
        Some(s) => s,
        None => {
            let ghost rep = ShaderReport {
                kind,
                creation,
                source: source@,
                created: None,
                status: None,
                log: None,
            };
            let r = gl_outcome(None, None, None, "cannot create shader", "unknown shader error");
            return (r, Ghost(rep));
        },
    };
    gl_shader_source(gl, &shader, source);
    gl_compile_shader(gl, &shader);
    let status = js_as_bool(&gl_get_shader_parameter(gl, &shader, COMPILE_STATUS));
    let log = if status_ok(status) {
        None
    } else {
        gl_get_shader_info_log(gl, &shader)
    };
    let ghost rep = ShaderReport {
        kind,
        creation,
        source: source@,
        created: Some(shader),
        status,
        log: text_option(log),
    };
    let r = gl_outcome(Some(shader), status, log, "cannot create shader", "unknown shader error");
    (r, Ghost(rep))
}

/// Creates a program, attaches `vert` then `frag` and links it. The result is
/// `program_outcome` of what the context gave back; the report returned beside it
/// records that, with the shaders attached.
pub fn link_program(gl: &WebGl2RenderingContext, vert: &WebGlShader, frag: &WebGlShader) -> (r: (
    Result<WebGlProgram, String>,
    Ghost<ProgramReport>,
))
    ensures
        r.1@.vertex == *vert,
        r.1@.fragment == *frag,
        r.1@.created is None ==> r.1@.status is None && r.1@.log is None,
        text_result(r.0) == program_outcome(r.1@),
{
    let program = match gl_create_program(gl) {
        Some(p) => p,
        None => {
            let ghost rep = ProgramReport {
                vertex: *vert,
                fragment: *frag,
                created: None,
                status: None,
                log: None,
            };
            let r = gl_outcome(None, None, None, "cannot create program", "unknown program error");
            return (r, Ghost(rep));
        },
    };
    gl_attach_shader(gl, &program, vert);
    gl_attach_shader(gl, &program, frag);
    gl_link_program(gl, &program);
    let status = js_as_bool(&gl_get_program_parameter(gl, &program, LINK_STATUS));
    let log = if status_ok(status) {
        None
    } else {
        gl_get_program_info_log(gl, &program)
    };
    let ghost rep = ProgramReport {
        vertex: *vert,
        fragment: *frag,
        created: Some(program),
        status,
        log: text_option(log),
    };
    let r = gl_outcome(Some(program), status, log, "cannot create program", "unknown program error");
    (r, Ghost(rep))
}

/// What building the effect's program went through: the vertex shader's report,
/// the fragment shader's when it was compiled, and the link's when it was made.
pub struct BuildReport {
    pub vertex: ShaderReport,
    pub fragment: Option<ShaderReport>,
    pub link: Option<ProgramReport>,
}

/// The building of the program followed its plan: the vertex shader is compiled
/// from `VERT_SRC` as a `VERTEX_SHADER`; only if that succeeds, the fragment shader
/// from `FRAG_SRC` as a `FRAGMENT_SHADER`; only if that succeeds, the two are
/// linked, vertex shader first.
pub open spec fn build_followed_plan(rep: BuildReport) -> bool {
    &&& rep.vertex.kind == VERTEX_SHADER
    &&& rep.vertex.source == VERT_SRC@
    &&& match shader_outcome(rep.vertex) {
        Err(_) => rep.fragment is None && rep.link is None,
        Ok(v) => match rep.fragment {
            None => false,
            Some(f) => {
                &&& f.kind == FRAGMENT_SHADER
                &&& f.source == FRAG_SRC@
                &&& match shader_outcome(f) {
                    Err(_) => rep.link is None,
                    Ok(fr) => rep.link matches Some(l) && l.vertex == v && l.fragment == fr,
                }
            },
        },
    }
}

/// How building the program ends: the first failure among compiling the vertex
/// shader, compiling the fragment shader and linking, else the linked program.
pub open spec fn build_outcome(rep: BuildReport) -> Result<WebGlProgram, Seq<char>> {
    match shader_outcome(rep.vertex) {
        Err(e) => Err(e),
        Ok(_) => match rep.fragment {
            Some(f) => match shader_outcome(f) {
                Err(e) => Err(e),
                Ok(_) => match rep.link {
                    Some(l) => program_outcome(l),
                    None => Err(Seq::empty()),
                },
            },
            None => Err(Seq::empty()),
        },
    }
}

/// Compiles the effect's vertex and fragment shaders, in that order, and links them.
pub fn build_program(gl: &WebGl2RenderingContext) -> (r: (Result<WebGlProgram, String>, Ghost<BuildReport>))
    ensures
        build_followed_plan(r.1@),
        text_result(r.0) == build_outcome(r.1@),
{
    let (vr, Ghost(vrep)) = compile_shader(gl, VERTEX_SHADER, VERT_SRC);
    let vert = match vr {
        Ok(v) => v,
        Err(e) => {
            return (Err(e), Ghost(BuildReport { vertex: vrep, fragment: None, link: None }));
        },
    };
    let (fr, Ghost(frep)) = compile_shader(gl, FRAGMENT_SHADER, FRAG_SRC);
    let frag = match fr {
        Ok(f) => f,
        Err(e) => {
            return (Err(e), Ghost(BuildReport { vertex: vrep, fragment: Some(frep), link: None }));
        },
    };
    let (pr, Ghost(prep)) = link_program(gl, &vert, &frag);
    (pr, Ghost(BuildReport { vertex: vrep, fragment: Some(frep), link: Some(prep) }))
}

/// The uniforms of the fragment shader, in the order they are looked up.
pub open spec fn uniform_names() -> Seq<Seq<char>> {
    seq!["uResolution"@, "uRadius"@, "uBorder"@, "uTime"@, "uMouse"@, "uIntensity"@, "uTint"@]
}

/// The error given when the program lacks the uniform `name`.
pub open spec fn missing_uniform_message(name: Seq<char>) -> Seq<char> {
    "no "@ + name
}

/// Where the linked program keeps each uniform the render loop sets.
pub struct UniformLocations {
    pub resolution: WebGlUniformLocation,
    pub radius: WebGlUniformLocation,
    pub border: WebGlUniformLocation,
    pub time: WebGlUniformLocation,
    pub mouse: WebGlUniformLocation,
    pub intensity: WebGlUniformLocation,
    pub tint: WebGlUniformLocation,
}

/// The name of uniform `i` of `uniform_names`.
fn uniform_name(i: usize) -> (name: &'static str)
    requires
        i < uniform_names().len(),
    ensures
        name@ == uniform_names()[i as int],
{
    if i == 0 {
        "uResolution"
    } else if i == 1 {
        "uRadius"
    } else if i == 2 {
        "uBorder"
    } else if i == 3 {
        "uTime"
    } else if i == 4 {
        "uMouse"
    } else if i == 5 {
        "uIntensity"
    } else {
        "uTint"
    }
}

/// One uniform lookup: the name asked for, the location the program gave back,
/// and the record of that request.
pub struct UniformLookup {
    pub name: Seq<char>,
    pub found: Option<WebGlUniformLocation>,
    pub answer: UniformAnswer,
}

/// Looks up uniform `name` in the program.
fn locate(gl: &WebGl2RenderingContext, program: &WebGlProgram, name: &str) -> (r: (
    Option<WebGlUniformLocation>,
    Ghost<UniformLookup>,
))
    ensures
        r.1@.name == name@,
        r.1@.found == r.0,
        r.1@.answer.program() == *program,
        r.1@.answer.name() == name@,
        r.1@.answer.location() == r.0,
{
    let (found, Ghost(answer)) = uniform_location(gl, program, name);
    let ghost lookup = UniformLookup { name: name@, found, answer };
    (found, Ghost(lookup))
}

/// The outcome of looking up uniform `name`: the location found, or the error
/// "no " followed by its name when the program has none.
pub fn found_or_missing(found: Option<WebGlUniformLocation>, name: &str) -> (r: Result<WebGlUniformLocation, String>)
    ensures
        r is Ok <==> found is Some,
        r matches Ok(l) ==> found == Some(l),
        r matches Err(e) ==> e@ == missing_uniform_message(name@),
{
    match found {
        Some(l) => Ok(l),
        None => {
            let mut msg = "no ".to_owned();
            msg.append(name);
            Err(msg)
        },
    }
}

/// Puts the seven locations found, in the order of `uniform_names`, into their fields.
pub fn assemble_uniforms(found: Vec<WebGlUniformLocation>) -> (l: UniformLocations)
    requires
        found@.len() == uniform_names().len(),
    ensures
        l.resolution == found@[0],
        l.radius == found@[1],
        l.border == found@[2],
        l.time == found@[3],
        l.mouse == found@[4],
        l.intensity == found@[5],
        l.tint == found@[6],
{
    let mut rest = found;
    let tint = rest.pop().unwrap();
    let intensity = rest.pop().unwrap();
    let mouse = rest.pop().unwrap();
    let time = rest.pop().unwrap();
    let border = rest.pop().unwrap();
    let radius = rest.pop().unwrap();
    let resolution = rest.pop().unwrap();
    UniformLocations { resolution, radius, border, time, mouse, intensity, tint }
}

/// The fields of `l` hold, in the order of `uniform_names`, the locations the
/// lookups found.
pub open spec fn uniforms_match(l: UniformLocations, lookups: Seq<UniformLookup>) -> bool {
    &&& l.resolution == lookups[0].found.unwrap()
    &&& l.radius == lookups[1].found.unwrap()
    &&& l.border == lookups[2].found.unwrap()
    &&& l.time == lookups[3].found.unwrap()
    &&& l.mouse == lookups[4].found.unwrap()
    &&& l.intensity == lookups[5].found.unwrap()
    &&& l.tint == lookups[6].found.unwrap()
}

/// Looks up the uniforms of `uniform_names`, in order, stopping at the first one
/// missing, which gives the error "no " followed by its name; when all are found,
/// each goes into its field. The lookups made are returned beside the result.
pub fn locate_uniforms(gl: &WebGl2RenderingContext, program: &WebGlProgram) -> (r: (
    Result<UniformLocations, String>,
    Ghost<Seq<UniformLookup>>,
))
    ensures
        1 <= r.1@.len() <= uniform_names().len(),
        forall|i: int| 0 <= i < r.1@.len() ==> (#[trigger] r.1@[i]).name == uniform_names()[i],
        forall|i: int|
            0 <= i < r.1@.len() ==> (#[trigger] r.1@[i]).answer.program() == *program && r.1@[i].answer.name()
                == uniform_names()[i] && r.1@[i].answer.location() == r.1@[i].found,
        forall|i: int| 0 <= i < r.1@.len() - 1 ==> (#[trigger] r.1@[i]).found is Some,
        r.0 is Ok <==> (r.1@.len() == uniform_names().len() && r.1@.last().found is Some),
        r.0 matches Ok(l) ==> uniforms_match(l, r.1@),
        r.0 matches Err(e) ==> r.1@.last().found is None && e@ == missing_uniform_message(
            uniform_names()[r.1@.len() - 1],
        ),
{
    let mut found: Vec<WebGlUniformLocation> = Vec::new();
    let ghost mut lookups: Seq<UniformLookup> = Seq::empty();
    let mut i: usize = 0;
    while i < 7
        invariant
            i <= 7,
            uniform_names().len() == 7,
            found@.len() == i,
            lookups.len() == i,
            forall|j: int|
                0 <= j < i ==> (#[trigger] lookups[j]).name == uniform_names()[j] && lookups[j].found
                    == Some(found@[j]) && lookups[j].answer.program() == *program
                    && lookups[j].answer.name() == uniform_names()[j] && lookups[j].answer.location()
                    == lookups[j].found,
        decreases 7 - i,
    {
        let name = uniform_name(i);
        let (looked, Ghost(lookup)) = locate(gl, program, name);
        proof {
            lookups = lookups.push(lookup);
        }
        match found_or_missing(looked, name) {
            Ok(loc) => found.push(loc),
            Err(e) => {
                return (Err(e), Ghost(lookups));
            },
        }
        i = i + 1;
    }
    let l = assemble_uniforms(found);
    (Ok(l), Ghost(lookups))
}

} // verus!
