use vstd::prelude::*;

verus! {

/// Vertex shader of the flat-color quad: one vec2 position attribute at
/// slot 0, transformed by the `uTransform` uniform.
pub const COLOR_2D_VERTEX_SHADER: &'static str = r"
  attribute vec2 aPosition;

  uniform mat4 uTransform;

  void main() {
    gl_Position = uTransform * vec4(aPosition, 0.0, 1.0);
  }
";

/// Fragment shader of the flat-color quad: every fragment takes the
/// constant `uColor` uniform.
pub const COLOR_2D_FRAGMENT_SHADER: &'static str = r"
  precision mediump float;

  uniform vec4 uColor;

  void main() {
    gl_FragColor = uColor;
  }
";

/// Vertex shader of the gradient quad: a vec2 position attribute at slot
/// 0 and a vec4 color attribute at slot 1, the color handed on to the
/// fragment stage.
pub const COLOR_2D_GRADIENT_VERTEX_SHADER: &'static str = r"
  attribute vec2 aPosition;
  attribute vec4 aColor;

  uniform mat4 uTransform;

  varying lowp vec4 vColor;

  void main() {
    vColor = aColor;
    gl_Position = uTransform * vec4(aPosition, 0.0, 1.0);
  }
";

/// Fragment shader of the gradient quad: each fragment takes the
/// interpolated per-vertex color. It also declares, and leaves unused, the
/// `uColor` uniform that the flat pair feeds; linking tolerates that
/// asymmetry.
pub const COLOR_2D_GRADIENT_FRAGMENT_SHADER: &'static str = r"
  precision mediump float;

  uniform vec4 uColor;

  varying lowp vec4 vColor;

  void main() {
    gl_FragColor = vec4(vColor.r, vColor.g, vColor.b, vColor.a);
  }
";

} // verus!
