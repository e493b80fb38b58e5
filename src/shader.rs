//! Shader objects and their compile state machine.
use crate::command::{deletes, Command, Kind};
use crate::context::{appended_one, Context};
use crate::enums::ShaderType;
use crate::error::Error;
use crate::info_log::{log_body, log_text, lossy_text};
use vstd::prelude::*;

verus! {

/// Where a shader stands in its life.
#[derive(Debug, Clone, Copy, PartialEq, Eq, Structural, Hash)]
pub enum ShaderState {
    Created,
    SourceLoaded,
    Compiled,
    CompileFailed,
}

/// A shader object.
pub struct Shader {
    shader: u32,
    ty: ShaderType,
    state: ShaderState,
}

impl Shader {
    /// The device's name for the shader.
    pub closed spec fn id_spec(&self) -> u32 {
        self.shader
    }

    /// The stage the shader is for.
    pub closed spec fn shader_type(&self) -> ShaderType {
        self.ty
    }

    /// Where the shader stands.
    pub closed spec fn state(&self) -> ShaderState {
        self.state
    }

    pub(crate) fn new(ty: ShaderType, shader: u32) -> (r: Self)
        ensures
            r.id_spec() == shader,
            r.shader_type() == ty,
            r.state() == ShaderState::Created,
    {
        Shader { shader, ty, state: ShaderState::Created }
    }

    /// The device's name for the shader.
    pub fn id(&self) -> (r: u32)
        ensures
            r == self.id_spec(),
    {
        self.shader
    }

    /// Where the shader stands.
    pub fn status(&self) -> (r: ShaderState)
        ensures
            r == self.state(),
    {
        self.state
    }

    /// Gives the shader up: one deletion call for its name.
    pub fn delete(self, context: &mut Context)
        ensures
            appended_one(
                old(context)@,
                final(context)@,
                |c: Command| deletes(c, Kind::Shader, seq![self.id_spec()]),
            ),
    {
        let ids: Vec<u32> = vec![self.shader];
        assert(ids@ =~= seq![self.shader]);
        context.push(Command::Delete(Kind::Shader, ids));
    }

    /// Loads `code` as the source of this shader, replacing any before.
    pub fn source(&mut self, context: &mut Context, code: &str)
        ensures
            appended_one(
                old(context)@,
                final(context)@,
                |c: Command|
                    match c {
                        Command::ShaderSource(id, s) => id == old(self).id_spec() && s@ == code@,
                        _ => false,
                    },
            ),
            final(self).id_spec() == old(self).id_spec(),
            final(self).shader_type() == old(self).shader_type(),
            final(self).state() == ShaderState::SourceLoaded,
    {
        context.push(Command::ShaderSource(self.shader, code.to_owned()));
        self.state = ShaderState::SourceLoaded;
    }

    /// Asks the device to compile this shader. What came of it shows in
    /// the compile status, which `compiled` takes.
    pub fn compile(&self, context: &mut Context)
        ensures
            final(context)@ == old(context)@.push(Command::CompileShader(self.id_spec())),
    {
        context.push(Command::CompileShader(self.shader));
    }

    /// Takes the compile status that the device reported: a non-zero status
    /// makes the shader compiled. Returns whether it did; if not, the
    /// device's log is to be read and handed to `compile_failed`.
    pub fn compiled(&mut self, status: i32) -> (r: bool)
        ensures
            r == (status != 0),
            final(self).id_spec() == old(self).id_spec(),
            final(self).shader_type() == old(self).shader_type(),
            r ==> final(self).state() == ShaderState::Compiled,
            !r ==> final(self).state() == old(self).state(),
    {
        if status != 0 {
            self.state = ShaderState::Compiled;
            true
        } else {
            false
        }
    }

    /// Takes the log that the device wrote for a failed compile: the shader
    /// has failed, and the error carries the log's text.
    pub fn compile_failed(&mut self, log: &[u8]) -> (r: Error)
        ensures
            r.is_compile_failure_with(lossy_text(log_body(log@))),
            log_body(log@).len() > 0 ==> (r matches Error::CompileFailure(s) && s@.len() > 0),
            final(self).id_spec() == old(self).id_spec(),
            final(self).shader_type() == old(self).shader_type(),
            final(self).state() == ShaderState::CompileFailed,
    {
        self.state = ShaderState::CompileFailed;
        Error::CompileFailure(log_text(log))
    }

    /// Compiles this shader without reading its status, for a caller that
    /// knows the source to be good; the shader counts as compiled.
    pub fn compile_unchecked(&mut self, context: &mut Context)
        ensures
            final(context)@ == old(context)@.push(Command::CompileShader(old(self).id_spec())),
            final(self).id_spec() == old(self).id_spec(),
            final(self).shader_type() == old(self).shader_type(),
            final(self).state() == ShaderState::Compiled,
    {
        context.push(Command::CompileShader(self.shader));
        self.state = ShaderState::Compiled;
    }
}

} // verus!
