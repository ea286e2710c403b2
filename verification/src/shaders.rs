//! The built-in fragment source that is shown when the source of the user
//! cannot be.

use vstd::prelude::*;

verus! {

/// The diagnostic fragment source: waves that move with the uniform `time`.
pub open spec fn error_shader() -> Seq<char> {
    "
#version 120
in vec2 st;
uniform float time;
void main()
{
    gl_FragColor = vec4
    (
        cos(st.x * 20.0 + time) + 
        sin(st.y * 20.0 + time),
        0.0, .5, 1.0
    );
}
"@
}

pub const ERROR_SHADER: &'static str = "
#version 120
in vec2 st;
uniform float time;
void main()
{
    gl_FragColor = vec4
    (
        cos(st.x * 20.0 + time) + 
        sin(st.y * 20.0 + time),
        0.0, .5, 1.0
    );
}
";

/// The diagnostic fragment source.
pub fn error_source() -> (source: &'static str)
    ensures
        source@ == error_shader(),
{
    ERROR_SHADER
}

} // verus!
