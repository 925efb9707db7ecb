//! The two-stage shader contract and the lighting models that meet it.

pub mod shader;
pub mod lighting;
pub mod gouraud;
pub mod normal;
pub mod normal_spec;
pub mod tangent_normal;
pub mod shadow;

pub use shader::{Shader, ShaderError};
pub use gouraud::{GouraudShader, GouraudTextureShader};
pub use normal::NormalMappedShader;
pub use normal_spec::NormalSpecularShader;
pub use tangent_normal::TangentNormalShader;
pub use shadow::{DepthShader, ShadowBuffer, ShadowShader};
