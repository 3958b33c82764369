//! Shader compilation and program linking, against the model context.
//!
//! The model front end accepts a tiny dialect: a stage's source is valid when
//! it contains the entry point `main`, and a fragment stage must in addition
//! end in its constant output color, written as eight hex digits `RRGGBBAA`.
//! A platform compiler accepts far more, but this is enough to give the
//! compile/link lifecycle its exact contract: success and failure conditions,
//! the diagnostic text carried on failure, and which objects each call
//! allocates.

use vstd::prelude::*;

use crate::color::Rgba;
use crate::context::{GlContext, GlView};

verus! {

/// The pipeline stage a shader object is compiled for.
#[derive(Clone, Copy, Debug, PartialEq, Eq, Structural)]
pub enum ShaderStage {
    Vertex,
    Fragment,
}

/// What the context records for one live shader object.
#[derive(Clone, Copy, Debug, PartialEq, Eq, Structural)]
pub struct ShaderRecord {
    /// The stage the source was compiled for.
    pub stage: ShaderStage,
    /// The constant output color of a fragment stage; black for a vertex
    /// stage, which produces no color of its own.
    pub color: Rgba,
}

/// An owned handle to a compiled shader object.
#[derive(Debug)]
pub struct Shader {
    /// The object's name in the context; never 0.
    pub id: u32,
    /// The stage it was compiled for.
    pub stage: ShaderStage,
}

/// An owned handle to a linked shader program. A program id of 0 denotes
/// "not yet created".
#[derive(Debug)]
pub struct ShaderProgram {
    pub id: u32,
}

impl Default for ShaderProgram {
    fn default() -> (d: Self)
        ensures
            d.id == 0,
    {
        ShaderProgram { id: 0 }
    }
}

/// `pat` occurs in `s` starting at position `i`.
pub open spec fn contains_at(s: Seq<char>, i: int, pat: Seq<char>) -> bool {
    &&& 0 <= i
    &&& i + pat.len() <= s.len()
    &&& s.subrange(i, i + pat.len()) == pat
}

/// `pat` occurs somewhere in `s`.
pub open spec fn contains_seq(s: Seq<char>, pat: Seq<char>) -> bool {
    exists|i: int| contains_at(s, i, pat)
}

/// The model front end's one syntax rule for every stage: the source must
/// name the entry point.
pub open spec fn has_entry_point(s: Seq<char>) -> bool {
    contains_seq(s, "main"@)
}

/// A hex digit, either case.
pub open spec fn is_hex_digit(c: char) -> bool {
    let u = c as u32;
    (48 <= u && u <= 57)  // '0' to '9'
     || (97 <= u && u <= 102)  // 'a' to 'f'
     || (65 <= u && u <= 70)  // 'A' to 'F'

}

/// The value of one hex digit.
pub open spec fn hex_val(c: char) -> int {
    let u = c as u32;
    if 48 <= u && u <= 57 {
        u - 48
    } else if 97 <= u && u <= 102 {
        u - 87
    } else {
        u - 55
    }
}

/// The byte two hex digits denote.
pub open spec fn hex_byte(hi: char, lo: char) -> u8 {
    (16 * hex_val(hi) + hex_val(lo)) as u8
}

/// A fragment source carries its constant output color as its final eight
/// characters, `RRGGBBAA` in hex.
pub open spec fn color_directive_ok(s: Seq<char>) -> bool {
    &&& s.len() >= 8
    &&& forall|k: int| s.len() - 8 <= k < s.len() ==> is_hex_digit(#[trigger] s[k])
}

/// The constant output color a fragment source declares.
pub open spec fn frag_color(s: Seq<char>) -> Rgba {
    let n = s.len() as int;
    Rgba {
        r: hex_byte(s[n - 8], s[n - 7]),
        g: hex_byte(s[n - 6], s[n - 5]),
        b: hex_byte(s[n - 4], s[n - 3]),
        a: hex_byte(s[n - 2], s[n - 1]),
    }
}

/// What the model front end accepts for a stage.
pub open spec fn shader_source_valid(s: Seq<char>, stage: ShaderStage) -> bool {
    &&& has_entry_point(s)
    &&& stage is Fragment ==> color_directive_ok(s)
}

/// The color the context records for a compiled stage: the declared constant
/// for a fragment stage, opaque black for a vertex stage, which produces no
/// color of its own.
pub open spec fn shader_color(s: Seq<char>, stage: ShaderStage) -> Rgba {
    if stage is Fragment {
        frag_color(s)
    } else {
        Rgba { r: 0, g: 0, b: 0, a: 255 }
    }
}

/// The diagnostic text a failed compilation carries.
pub open spec fn compile_diagnostic(s: Seq<char>, stage: ShaderStage) -> Seq<char> {
    if !has_entry_point(s) {
        "error: no entry point 'main' in shader source"@
    } else {
        "error: fragment shader ends in no 'RRGGBBAA' color directive"@
    }
}

/// The diagnostic text a failed link carries.
pub open spec fn link_diagnostic() -> Seq<char> {
    "error: a program links exactly one vertex and one fragment stage"@
}

/// Whether the source names the entry point `main`.
fn contains_main(s: &str) -> (r: bool)
    ensures
        r == has_entry_point(s@),
{
    let n = s.unicode_len();
    proof {
        reveal_strlit("main");
    }
    if n < 4 {
        return false;
    }
    let mut i: usize = 0;
    while i <= n - 4
        invariant
            n == s@.len(),
            n >= 4,
            i <= n - 3,
            forall|j: int| 0 <= j < i ==> !contains_at(s@, j, "main"@),
            "main"@.len() == 4,
        decreases n - i,
    {
        let c0 = s.get_char(i);
        let c1 = s.get_char(i + 1);
        let c2 = s.get_char(i + 2);
        let c3 = s.get_char(i + 3);
        if c0 == 'm' && c1 == 'a' && c2 == 'i' && c3 == 'n' {
            proof {
                reveal_strlit("main");
                assert(s@.subrange(i as int, i as int + 4) =~= "main"@);
                assert(contains_at(s@, i as int, "main"@));
            }
            return true;
        }
        proof {
            reveal_strlit("main");
            assert(!contains_at(s@, i as int, "main"@)) by {
                if contains_at(s@, i as int, "main"@) {
                    assert(s@.subrange(i as int, i as int + 4)[0] == 'm');
                    assert(s@.subrange(i as int, i as int + 4)[1] == 'a');
                    assert(s@.subrange(i as int, i as int + 4)[2] == 'i');
                    assert(s@.subrange(i as int, i as int + 4)[3] == 'n');
                }
            }
        }
        i = i + 1;
    }
    proof {
        assert(!has_entry_point(s@)) by {
            if has_entry_point(s@) {
                let j = choose|j: int| contains_at(s@, j, "main"@);
                assert(0 <= j < i);
            }
        }
    }
    false
}

/// The value of one hex digit, or `None` for any other character.
fn hex_digit_val(c: char) -> (r: Option<u8>)
    ensures
        r is Some <==> is_hex_digit(c),
        r matches Some(v) ==> v == hex_val(c) && v <= 15,
{
    let u = c as u32;
    if 48 <= u && u <= 57 {
        Some((u - 48) as u8)
    } else if 97 <= u && u <= 102 {
        Some((u - 87) as u8)
    } else if 65 <= u && u <= 70 {
        Some((u - 55) as u8)
    } else {
        None
    }
}

/// Reads the trailing `RRGGBBAA` color directive, if the source ends in one.
fn parse_color_directive(s: &str) -> (r: Option<Rgba>)
    ensures
        r is Some <==> color_directive_ok(s@),
        r matches Some(c) ==> c == frag_color(s@),
{
    let n = s.unicode_len();
    if n < 8 {
        return None;
    }
    let h = n - 8;
    let d0 = match hex_digit_val(s.get_char(h)) {
        Some(v) => v,
        None => {
            return None;
        },
    };
    let d1 = match hex_digit_val(s.get_char(h + 1)) {
        Some(v) => v,
        None => {
            return None;
        },
    };
    let d2 = match hex_digit_val(s.get_char(h + 2)) {
        Some(v) => v,
        None => {
            return None;
        },
    };
    let d3 = match hex_digit_val(s.get_char(h + 3)) {
        Some(v) => v,
        None => {
            return None;
        },
    };
    let d4 = match hex_digit_val(s.get_char(h + 4)) {
        Some(v) => v,
        None => {
            return None;
        },
    };
    let d5 = match hex_digit_val(s.get_char(h + 5)) {
        Some(v) => v,
        None => {
            return None;
        },
    };
    let d6 = match hex_digit_val(s.get_char(h + 6)) {
        Some(v) => v,
        None => {
            return None;
        },
    };
    let d7 = match hex_digit_val(s.get_char(h + 7)) {
        Some(v) => v,
        None => {
            return None;
        },
    };
    proof {
        assert forall|k: int| s@.len() - 8 <= k < s@.len() implies is_hex_digit(
            #[trigger] s@[k],
        ) by {
        }
    }
    Some(
        Rgba {
            r: 16 * d0 + d1,
            g: 16 * d2 + d3,
            b: 16 * d4 + d5,
            a: 16 * d6 + d7,
        },
    )
}

/// Compiles one shader stage from source text.
///
/// Succeeds exactly on sources the model front end accepts; on failure the
/// diagnostic text says what was missing and the context is unchanged — no
/// usable handle is allocated. On success the context records one new shader
/// object under a fresh name.
pub fn compile(gl: &mut GlContext, src: &str, stage: ShaderStage) -> (r: Result<Shader, String>)
    requires
        old(gl)@.next_shader <= u32::MAX,
    ensures
        r is Ok <==> shader_source_valid(src@, stage),
        r matches Ok(sh) ==> {
            &&& sh.id == old(gl)@.next_shader
            &&& sh.id != 0
            &&& !old(gl)@.shaders.contains_key(sh.id)
            &&& sh.stage == stage
            &&& final(gl)@ == (GlView {
                shaders: old(gl)@.shaders.insert(
                    sh.id,
                    (ShaderRecord { stage, color: shader_color(src@, stage) }),
                ),
                next_shader: old(gl)@.next_shader + 1,
                ..old(gl)@
            })
        },
        r matches Err(msg) ==> {
            &&& msg@ == compile_diagnostic(src@, stage)
            &&& msg@.len() > 0
            &&& final(gl)@ == old(gl)@
        },
{
    if !contains_main(src) {
        proof {
            reveal_strlit("error: no entry point 'main' in shader source");
        }
        return Err("error: no entry point 'main' in shader source".to_owned());
    }
    let color: Rgba;
    match stage {
        ShaderStage::Vertex => {
            color = Rgba { r: 0, g: 0, b: 0, a: 255 };
        },
        ShaderStage::Fragment => {
            match parse_color_directive(src) {
                Some(c) => {
                    color = c;
                },
                None => {
                    proof {
                        reveal_strlit(
                            "error: fragment shader ends in no 'RRGGBBAA' color directive",
                        );
                    }
                    return Err(
                        "error: fragment shader ends in no 'RRGGBBAA' color directive".to_owned(),
                    );
                },
            }
        },
    }
    proof {
        crate::context::lemma_view(*old(gl));
        crate::context::lemma_view(*gl);
    }
    let id = gl.shaders.gen(ShaderRecord { stage, color });
    proof {
        crate::context::lemma_view(*gl);
        assert(gl@ =~~= (GlView {
            shaders: old(gl)@.shaders.insert(
                id,
                (ShaderRecord { stage, color: shader_color(src@, stage) }),
            ),
            next_shader: old(gl)@.next_shader + 1,
            ..old(gl)@
        }));
    }
    Ok(Shader { id, stage })
}

impl Shader {
    /// Flags the shader object for deletion, as dropping the handle did with
    /// `glDeleteShader`: exactly this one object leaves the context.
    pub fn delete(self, gl: &mut GlContext)
        requires
            old(gl)@.shaders.contains_key(self.id),
        ensures
            final(gl)@ == (GlView { shaders: old(gl)@.shaders.remove(self.id), ..old(gl)@ }),
    {
        proof {
            crate::context::lemma_view(*old(gl));
        }
        let _ = gl.shaders.free(self.id);
        proof {
            crate::context::lemma_view(*gl);
            assert(gl@ =~~= (GlView {
                shaders: old(gl)@.shaders.remove(self.id),
                ..old(gl)@
            }));
        }
    }
}

impl ShaderProgram {
    /// Deletes the program object, as dropping the handle did with
    /// `glDeleteProgram`: exactly this one object leaves the context. The
    /// model removes it at once, where the platform would defer while the
    /// program is in use; a caller that draws again first installs another
    /// program.
    pub fn delete(self, gl: &mut GlContext)
        requires
            old(gl)@.programs.contains_key(self.id),
        ensures
            final(gl)@ == (GlView { programs: old(gl)@.programs.remove(self.id), ..old(gl)@ }),
    {
        proof {
            crate::context::lemma_view(*old(gl));
        }
        let _ = gl.programs.free(self.id);
        proof {
            crate::context::lemma_view(*gl);
            assert(gl@ =~~= (GlView {
                programs: old(gl)@.programs.remove(self.id),
                ..old(gl)@
            }));
        }
    }
}

/// Links a vertex and a fragment stage into a new program.
///
/// Succeeds exactly when the two handles hold the two stages a program
/// needs; on failure the diagnostic says so and the context is unchanged.
/// On success the context records one new program under a fresh name,
/// carrying the fragment stage's constant output color. The shader objects
/// stay live either way; the caller releases them.
pub fn link(gl: &mut GlContext, vs: &Shader, fs: &Shader) -> (r: Result<ShaderProgram, String>)
    requires
        old(gl)@.shaders.contains_key(vs.id),
        old(gl)@.shaders.contains_key(fs.id),
        old(gl)@.next_program <= u32::MAX,
    ensures
        r is Ok <==> (old(gl)@.shaders[vs.id].stage is Vertex && old(gl)@.shaders[fs.id].stage
            is Fragment),
        r matches Ok(p) ==> {
            &&& p.id == old(gl)@.next_program
            &&& p.id != 0
            &&& !old(gl)@.programs.contains_key(p.id)
            &&& final(gl)@ == (GlView {
                programs: old(gl)@.programs.insert(p.id, old(gl)@.shaders[fs.id].color),
                next_program: old(gl)@.next_program + 1,
                ..old(gl)@
            })
        },
        r matches Err(msg) ==> {
            &&& msg@ == link_diagnostic()
            &&& msg@.len() > 0
            &&& final(gl)@ == old(gl)@
        },
{
    proof {
        crate::context::lemma_view(*old(gl));
    }
    let vs_rec = *gl.shaders.get(vs.id).unwrap();
    let fs_rec = *gl.shaders.get(fs.id).unwrap();
    let stages_ok = match (vs_rec.stage, fs_rec.stage) {
        (ShaderStage::Vertex, ShaderStage::Fragment) => true,
        _ => false,
    };
    if !stages_ok {
        proof {
            reveal_strlit("error: a program links exactly one vertex and one fragment stage");
        }
        return Err("error: a program links exactly one vertex and one fragment stage".to_owned());
    }
    let id = gl.programs.gen(fs_rec.color);
    proof {
        crate::context::lemma_view(*gl);
        assert(gl@ =~~= (GlView {
            programs: old(gl)@.programs.insert(id, old(gl)@.shaders[fs.id].color),
            next_program: old(gl)@.next_program + 1,
            ..old(gl)@
        }));
    }
    Ok(ShaderProgram { id })
}

/// Compiles both stages and links them, releasing the intermediate shader
/// objects once linked.
///
/// For every pair of sources the model front end accepts, this yields a
/// usable program handle and no diagnostic; the program's recorded color is
/// the fragment source's declared constant. On failure the diagnostic of the
/// stage that failed comes back, and no shader or program object stays live.
pub fn compile_and_link(gl: &mut GlContext, vs_src: &str, fs_src: &str) -> (r: Result<
    ShaderProgram,
    String,
>)
    requires
        old(gl)@.next_shader + 1 <= u32::MAX,
        old(gl)@.next_program <= u32::MAX,
    ensures
        r is Ok <==> (shader_source_valid(vs_src@, ShaderStage::Vertex) && shader_source_valid(
            fs_src@,
            ShaderStage::Fragment,
        )),
        r matches Ok(p) ==> {
            &&& p.id == old(gl)@.next_program
            &&& p.id != 0
            &&& final(gl)@ == (GlView {
                programs: old(gl)@.programs.insert(p.id, frag_color(fs_src@)),
                next_program: old(gl)@.next_program + 1,
                next_shader: old(gl)@.next_shader + 2,
                ..old(gl)@
            })
        },
        r matches Err(msg) ==> {
            &&& msg@.len() > 0
            &&& final(gl)@ == (GlView { next_shader: final(gl)@.next_shader, ..old(gl)@ })
            &&& old(gl)@.next_shader <= final(gl)@.next_shader <= old(gl)@.next_shader + 1
            &&& !shader_source_valid(vs_src@, ShaderStage::Vertex) ==> msg@ == compile_diagnostic(
                vs_src@,
                ShaderStage::Vertex,
            )
            &&& (shader_source_valid(vs_src@, ShaderStage::Vertex) && !shader_source_valid(
                fs_src@,
                ShaderStage::Fragment,
            )) ==> msg@ == compile_diagnostic(fs_src@, ShaderStage::Fragment)
        },
{
    let vs = match compile(gl, vs_src, ShaderStage::Vertex) {
        Ok(sh) => sh,
        Err(msg) => {
            return Err(msg);
        },
    };
    let fs = match compile(gl, fs_src, ShaderStage::Fragment) {
        Ok(sh) => sh,
        Err(msg) => {
            vs.delete(gl);
            proof {
                assert(gl@.shaders =~= old(gl)@.shaders);
            }
            return Err(msg);
        },
    };
    let program = match link(gl, &vs, &fs) {
        Ok(p) => p,
        Err(msg) => {
            // Unreachable: both stages just compiled for the right stages.
            fs.delete(gl);
            vs.delete(gl);
            proof {
                assert(gl@.shaders =~= old(gl)@.shaders);
            }
            return Err(msg);
        },
    };
    vs.delete(gl);
    fs.delete(gl);
    proof {
        assert(gl@.shaders =~= old(gl)@.shaders);
        assert(gl@ =~~= (GlView {
            programs: old(gl)@.programs.insert(program.id, frag_color(fs_src@)),
            next_program: old(gl)@.next_program + 1,
            next_shader: old(gl)@.next_shader + 2,
            ..old(gl)@
        }));
    }
    Ok(program)
}

} // verus!

