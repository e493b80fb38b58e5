//! Program objects: linking, and uploading uniforms by name.
use crate::command::{deletes, Command, Kind, UniformValue};
use crate::context::{appended_one, Context};
use crate::error::{check_error, Error};
use crate::info_log::{log_body, log_text, lossy_text};
use crate::shader::{Shader, ShaderState};
use vstd::prelude::*;
use vstd::string::StringSliceAdditionalSpecFns;

verus! {

/// Where a program stands in its life.
#[derive(Debug, Clone, Copy, PartialEq, Eq, Structural, Hash)]
pub enum ProgramState {
    Created,
    ShadersAttached,
    Linked,
    LinkFailed,
}

/// A shader program object.
pub struct Program {
    program: u32,
    state: ProgramState,
}

/// The location that the device reports for a name that no active uniform has.
pub const NO_LOCATION: i32 = -1;

/// The name holds a NUL byte, which the device cannot be given.
pub open spec fn has_nul(name: &str) -> bool {
    name.spec_bytes().contains(0u8)
}

impl Program {
    /// The device's name for the program.
    pub closed spec fn id_spec(&self) -> u32 {
        self.program
    }

    /// Where the program stands.
    pub closed spec fn state(&self) -> ProgramState {
        self.state
    }

    pub(crate) fn new(program: u32) -> (r: Self)
        ensures
            r.id_spec() == program,
            r.state() == ProgramState::Created,
    {
        Program { program, state: ProgramState::Created }
    }

    /// The device's name for the program.
    pub fn id(&self) -> (r: u32)
        ensures
            r == self.id_spec(),
    {
        self.program
    }

    /// Where the program stands.
    pub fn status(&self) -> (r: ProgramState)
        ensures
            r == self.state(),
    {
        self.state
    }

    /// Gives the program up: one deletion call for its name.
    pub fn delete(self, context: &mut Context)
        ensures
            appended_one(
                old(context)@,
                final(context)@,
                |c: Command| deletes(c, Kind::Program, seq![self.id_spec()]),
            ),
    {
        let ids: Vec<u32> = vec![self.program];
        assert(ids@ =~= seq![self.program]);
        context.push(Command::Delete(Kind::Program, ids));
    }

    /// Makes this program the one that draws use.
    pub fn using(&self, context: &mut Context)
        ensures
            final(context)@ == old(context)@.push(Command::UseProgram(self.id_spec())),
    {
        context.push(Command::UseProgram(self.program));
    }

    /// Attaches a shader that has not failed to compile; the device itself
    /// checks compile states only at link.
    pub fn attach(&mut self, context: &mut Context, shader: &Shader)
        requires
            shader.state() != ShaderState::CompileFailed,
        ensures
            final(context)@ == old(context)@.push(
                Command::AttachShader(old(self).id_spec(), shader.id_spec()),
            ),
            final(self).id_spec() == old(self).id_spec(),
            final(self).state() == ProgramState::ShadersAttached,
    {
        context.push(Command::AttachShader(self.program, shader.id()));
        self.state = ProgramState::ShadersAttached;
    }

    /// Asks the device to link this program. What came of it shows in the
    /// link status, which `linked` takes.
    pub fn link(&self, context: &mut Context)
        ensures
            final(context)@ == old(context)@.push(Command::LinkProgram(self.id_spec())),
    {
        context.push(Command::LinkProgram(self.program));
    }

    /// Takes the link status that the device reported: a non-zero status
    /// makes the program linked. Returns whether it did; if not, the
    /// device's log is to be read and handed to `link_failed`.
    pub fn linked(&mut self, status: i32) -> (r: bool)
        ensures
            r == (status != 0),
            final(self).id_spec() == old(self).id_spec(),
            r ==> final(self).state() == ProgramState::Linked,
            !r ==> final(self).state() == old(self).state(),
    {
        if status != 0 {
            self.state = ProgramState::Linked;
            true
        } else {
            false
        }
    }

    /// Takes the log that the device wrote for a failed link: the program
    /// has failed, and the error carries the log's text.
    pub fn link_failed(&mut self, log: &[u8]) -> (r: Error)
        ensures
            r.is_link_failure_with(lossy_text(log_body(log@))),
            log_body(log@).len() > 0 ==> (r matches Error::LinkFailure(s) && s@.len() > 0),
            final(self).id_spec() == old(self).id_spec(),
            final(self).state() == ProgramState::LinkFailed,
    {
        self.state = ProgramState::LinkFailed;
        Error::LinkFailure(log_text(log))
    }

    /// Links this program without reading its status, for a caller that
    /// knows the shaders to be good; the program counts as linked.
    pub fn link_unchecked(&mut self, context: &mut Context)
        ensures
            final(context)@ == old(context)@.push(Command::LinkProgram(old(self).id_spec())),
            final(self).id_spec() == old(self).id_spec(),
            final(self).state() == ProgramState::Linked,
    {
        context.push(Command::LinkProgram(self.program));
        self.state = ProgramState::Linked;
    }

    /// The NUL-terminated name to query the location of `name` with; a name
    /// that holds a NUL itself is refused.
    pub fn uniform_name(name: &str) -> (r: Result<Vec<u8>, Error>)
        ensures
            r is Ok <==> !has_nul(name),
            r is Ok ==> r->Ok_0@ == name.spec_bytes().push(0u8),
            r is Err ==> r->Err_0.is_invalid_argument(),
    {
        let bytes = name.as_bytes();
        let mut i: usize = 0;
        while i < bytes.len()
            invariant
                bytes@ == name.spec_bytes(),
                i <= bytes@.len(),
                forall|k: int| 0 <= k < i ==> bytes@[k] != 0u8,
            decreases bytes@.len() - i,
        {
            if bytes[i] == 0 {
                assert(bytes@[i as int] == 0u8);
                return Err(Error::InvalidArgument("a uniform name cannot hold a NUL".to_owned()));
            }
            i = i + 1;
        }
        assert(!name.spec_bytes().contains(0u8));
        let mut query = vstd::slice::slice_to_vec(bytes);
        query.push(0u8);
        Ok(query)
    }

    /// The location of uniform `name`, given what the device answered to
    /// the query for it: a name with a NUL is refused, and the sentinel
    /// answer means that the program has no such active uniform.
    pub fn location(&self, name: &str, found: i32) -> (r: Result<i32, Error>)
        ensures
            r is Ok <==> !has_nul(name) && found != NO_LOCATION,
            r is Ok ==> r->Ok_0 == found,
            has_nul(name) ==> r is Err && r->Err_0.is_invalid_argument(),
            !has_nul(name) && found == NO_LOCATION ==> r is Err && r->Err_0.is_not_found_for(name@),
    {
        match Self::uniform_name(name) {
            Err(e) => Err(e),
            Ok(_) => {
                if found == NO_LOCATION {
                    Err(Error::NotFound(name.to_owned()))
                } else {
                    Ok(found)
                }
            },
        }
    }

    /// Uploads `value` to uniform `name`, given what the device answered to
    /// the location query for it. A refused name or a missing uniform fails
    /// and uploads nothing. Whether the device accepted the upload shows in
    /// its error flag, which `check_uniform_err` reads.
    pub fn set_uniform(&self, context: &mut Context, name: &str, found: i32, value: UniformValue) -> (r:
        Result<(), Error>)
        ensures
            r is Ok <==> !has_nul(name) && found != NO_LOCATION,
            r is Ok ==> final(context)@ == old(context)@.push(
                Command::Uniform { program: self.id_spec(), location: found, value },
            ),
            has_nul(name) ==> r is Err && r->Err_0.is_invalid_argument(),
            !has_nul(name) && found == NO_LOCATION ==> r is Err && r->Err_0.is_not_found_for(name@),
            r is Err ==> final(context)@ == old(context)@,
    {
        let location = match self.location(name, found) {
            Ok(l) => l,
            Err(e) => return Err(e),
        };
        context.push(Command::Uniform { program: self.program, location, value });
        Ok(())
    }

    /// Uploads a 4x4 matrix, its entries in column-major order as
    /// single-precision bit patterns, to uniform `name`.
    pub fn set_uniform_matrix(&self, context: &mut Context, name: &str, found: i32, value: [u32; 16]) -> (r:
        Result<(), Error>)
        ensures
            r is Ok <==> !has_nul(name) && found != NO_LOCATION,
            r is Ok ==> final(context)@ == old(context)@.push(
                Command::Uniform {
                    program: self.id_spec(),
                    location: found,
                    value: UniformValue::Mat4(value),
                },
            ),
            has_nul(name) ==> r is Err && r->Err_0.is_invalid_argument(),
            !has_nul(name) && found == NO_LOCATION ==> r is Err && r->Err_0.is_not_found_for(name@),
            r is Err ==> final(context)@ == old(context)@,
    {
        self.set_uniform(context, name, found, UniformValue::Mat4(value))
    }
}

/// Reads the device's error flag as it stood after a uniform upload.
pub fn check_uniform_err(code: u32) -> (r: Result<(), Error>)
    ensures
        r is Ok <==> code == crate::native::NO_ERROR,
        r is Err ==> r->Err_0.is_device_error_for(code),
{
    check_error(code)
}

} // verus!
