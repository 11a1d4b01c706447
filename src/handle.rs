//! Ownership of the engine's native handles.
//!
//! A handle is held by its native address, which is never zero. The types here decide when
//! a handle is taken, checked, handed over and released; the calls into the engine are made
//! by the caller with the addresses these types give out.
use std::rc::Rc;
use vstd::prelude::*;
use vstd::string::*;
use crate::cstring::{c_string_bytes, is_c_string};
use crate::error::{PjCreateError, ProjCreateError, ProjError};
use crate::request::first_nul;

verus! {

/// The engine's value for "true".
pub const PROJ_TRUE: i32 = 1;

/// A thread context of the engine.
pub struct ThreadContext {
    ptr: usize,
}

impl ThreadContext {
    #[verifier::type_invariant]
    spec fn non_null(&self) -> bool {
        self.ptr != 0
    }

    /// Native address of the context.
    pub closed spec fn addr(&self) -> nat {
        self.ptr as nat
    }

    /// Take ownership of the context at `ctx_ptr`.
    pub fn from_raw(ctx_ptr: usize) -> (r: ThreadContext)
        requires
            ctx_ptr != 0,
        ensures
            r.addr() == ctx_ptr,
    {
        ThreadContext { ptr: ctx_ptr }
    }

    /// Native address of the context, never zero.
    pub fn as_ptr(&self) -> (r: usize)
        ensures
            r == self.addr(),
            r != 0,
    {
        proof {
            use_type_invariant(self);
        }
        self.ptr
    }

    /// Whether a request to switch network access to `enable` was applied, from the state the
    /// engine reports afterwards.
    pub fn network_switch_applied(enable: bool, reported: i32) -> (r: bool)
        ensures
            r == (reported == if enable {
                1i32
            } else {
                0i32
            }),
    {
        let wanted: i32 = if enable { 1 } else { 0 };
        reported == wanted
    }

    /// Whether the engine's answer to a query of network access says it is on.
    pub fn network_reported_on(reported: i32) -> (r: bool)
        ensures
            r == (reported == PROJ_TRUE),
    {
        reported == PROJ_TRUE
    }
}

/// A compiled pipeline of the engine, with the owner of the context it was made in.
///
/// The context is shared by reference count, so it cannot be released before the pipeline.
pub struct Pj<C> {
    pj: usize,
    ctx: Rc<C>,
}

impl<C> Pj<C> {
    /// Native address of the pipeline.
    pub closed spec fn addr(&self) -> nat {
        self.pj as nat
    }

    /// The context the pipeline was made in.
    pub closed spec fn context(&self) -> C {
        *self.ctx
    }

    /// The bytes of a definition for the engine; an interior NUL is refused before any call.
    pub fn definition_bytes(definition: &str) -> (r: Result<Vec<u8>, PjCreateError>)
        ensures
            match r {
                Ok(b) => b@ == definition.spec_bytes() && is_c_string(b@),
                Err(e) => !is_c_string(definition.spec_bytes()) && (e matches PjCreateError::ArgumentNulError(n)
                    && n.nul_position == first_nul(definition.spec_bytes())),
            },
    {
        match c_string_bytes(definition) {
            Ok(b) => Ok(b),
            Err(e) => Err(PjCreateError::ArgumentNulError(e)),
        }
    }

    /// The bytes of a source and a target CRS for the engine; an interior NUL in either is
    /// refused before any call, the source being checked first.
    pub fn crs_pair_bytes(source_crs: &str, target_crs: &str) -> (r: Result<
        (Vec<u8>, Vec<u8>),
        PjCreateError,
    >)
        ensures
            match r {
                Ok((s, t)) => s@ == source_crs.spec_bytes() && t@ == target_crs.spec_bytes()
                    && is_c_string(s@) && is_c_string(t@),
                Err(e) => (!is_c_string(source_crs.spec_bytes()) || !is_c_string(
                    target_crs.spec_bytes(),
                )) && e is ArgumentNulError,
            },
    {
        let s = match c_string_bytes(source_crs) {
            Ok(b) => b,
            Err(e) => {
                return Err(PjCreateError::ArgumentNulError(e));
            },
        };
        let t = match c_string_bytes(target_crs) {
            Ok(b) => b,
            Err(e) => {
                return Err(PjCreateError::ArgumentNulError(e));
            },
        };
        Ok((s, t))
    }

    /// Take the pipeline the engine returned at `pj_ptr`; zero means that the engine
    /// refused, and `message` is what the context said right after.
    pub fn from_pj_ptr(
        ctx: Rc<C>,
        pj_ptr: usize,
        message: Result<String, std::str::Utf8Error>,
    ) -> (r: Result<Pj<C>, PjCreateError>)
        ensures
            pj_ptr != 0 ==> (r matches Ok(p) && p.addr() == pj_ptr && p.context() == *ctx),
            pj_ptr == 0 ==> match message {
                Ok(s) => r matches Err(PjCreateError::ProjError(m)) && m == s,
                Err(e) => r matches Err(PjCreateError::ProjErrorMessageUtf8Error(f)) && f == e,
            },
    {
        if pj_ptr == 0 {
            match message {
                Ok(s) => Err(PjCreateError::ProjError(s)),
                Err(e) => Err(PjCreateError::ProjErrorMessageUtf8Error(e)),
            }
        } else {
            Ok(Pj { pj: pj_ptr, ctx })
        }
    }

    /// Native address of the pipeline.
    pub fn as_ptr(&self) -> (r: usize)
        ensures
            r == self.addr(),
    {
        self.pj
    }

    /// The context the pipeline was made in.
    pub fn ctx(&self) -> (r: &C)
        ensures
            *r == self.context(),
    {
        &self.ctx
    }
}

/// A native handle to release.
#[derive(PartialEq, Eq, Structural, Clone, Copy, Debug)]
pub enum NativeHandle {
    Area(usize),
    Pipeline(usize),
    Context(usize),
}

/// Which kind of operation a transformation carries out.
#[derive(PartialEq, Eq, Structural, Clone, Copy, Debug)]
pub enum Transformation {
    Projection,
    Conversion,
}

/// The engine's direction code for a forward transformation.
pub const PJ_FWD: i32 = 1;

/// The engine's direction code for an inverse transformation.
pub const PJ_INV: i32 = -1;

/// The direction in which a transformation runs: a conversion always runs forward, a
/// projection runs inverse when asked to.
pub open spec fn direction_of(op: Transformation, inverse: bool) -> i32 {
    match op {
        Transformation::Conversion => PJ_FWD,
        Transformation::Projection => if inverse {
            PJ_INV
        } else {
            PJ_FWD
        },
    }
}

/// The engine's direction code for a transformation.
pub fn direction(op: Transformation, inverse: bool) -> (r: i32)
    ensures
        r == direction_of(op, inverse),
{
    match op {
        Transformation::Conversion => PJ_FWD,
        Transformation::Projection => if inverse {
            PJ_INV
        } else {
            PJ_FWD
        },
    }
}

/// The result of a transformation whose error code, read right after the call, is `errno`.
pub open spec fn transform_result(op: Transformation, errno: i32, message: String) -> Result<
    (),
    ProjError,
> {
    if errno == 0 {
        Ok(())
    } else {
        match op {
            Transformation::Projection => Err(ProjError::Projection(message)),
            Transformation::Conversion => Err(ProjError::Conversion(message)),
        }
    }
}

/// The result of a transformation depends on its own error code alone: once the code is
/// reset, a call that succeeds is reported as a success whatever failed before it on the
/// same pipeline.
pub proof fn lemma_errors_do_not_stick(
    op: Transformation,
    earlier_errno: i32,
    earlier_message: String,
    message: String,
)
    requires
        earlier_errno != 0,
    ensures
        transform_result(op, earlier_errno, earlier_message) is Err,
        transform_result(op, 0, message) == Ok::<(), ProjError>(()),
{
}

/// A transformation object: a pipeline, its own context, and the area of use it was made for.
///
/// Acquired context first, then area and pipeline; released in the reverse order.
pub struct Proj {
    c_proj: usize,
    ctx: usize,
    area: Option<usize>,
}

impl Proj {
    pub closed spec fn pipeline_addr(&self) -> usize {
        self.c_proj
    }

    pub closed spec fn context_addr(&self) -> usize {
        self.ctx
    }

    pub closed spec fn area_addr(&self) -> Option<usize> {
        self.area
    }

    #[verifier::type_invariant]
    spec fn non_null(&self) -> bool {
        &&& self.c_proj != 0
        &&& self.ctx != 0
        &&& self.area != Some(0usize)
    }

    /// Take a pipeline, its context and its area, once the engine has made them.
    pub fn from_handles(c_proj: usize, ctx: usize, area: Option<usize>) -> (r: Proj)
        requires
            c_proj != 0,
            ctx != 0,
            area != Some(0usize),
        ensures
            r.pipeline_addr() == c_proj,
            r.context_addr() == ctx,
            r.area_addr() == area,
    {
        Proj { c_proj, ctx, area }
    }

    /// The bytes of a definition for the engine; an interior NUL is refused before any call.
    pub fn definition_bytes(definition: &str) -> (r: Result<Vec<u8>, ProjCreateError>)
        ensures
            match r {
                Ok(b) => b@ == definition.spec_bytes() && is_c_string(b@),
                Err(e) => !is_c_string(definition.spec_bytes()) && (e matches ProjCreateError::ArgumentNulError(n)
                    && n.nul_position == first_nul(definition.spec_bytes())),
            },
    {
        match c_string_bytes(definition) {
            Ok(b) => Ok(b),
            Err(e) => Err(ProjCreateError::ArgumentNulError(e)),
        }
    }

    /// The bytes of a source and a target CRS for the engine; an interior NUL in either is
    /// refused before any call, the source being checked first.
    pub fn crs_pair_bytes(from: &str, to: &str) -> (r: Result<(Vec<u8>, Vec<u8>), ProjCreateError>)
        ensures
            match r {
                Ok((s, t)) => s@ == from.spec_bytes() && t@ == to.spec_bytes() && is_c_string(s@)
                    && is_c_string(t@),
                Err(e) => (!is_c_string(from.spec_bytes()) || !is_c_string(to.spec_bytes()))
                    && e is ArgumentNulError,
            },
    {
        let s = match c_string_bytes(from) {
            Ok(b) => b,
            Err(e) => {
                return Err(ProjCreateError::ArgumentNulError(e));
            },
        };
        let t = match c_string_bytes(to) {
            Ok(b) => b,
            Err(e) => {
                return Err(ProjCreateError::ArgumentNulError(e));
            },
        };
        Ok((s, t))
    }

    /// Check the handle a creating call returned; zero means that the engine refused, and
    /// `message` is what the context said right after.
    pub fn created(ptr: usize, message: String) -> (r: Result<usize, ProjCreateError>)
        ensures
            ptr != 0 ==> r == Ok::<usize, ProjCreateError>(ptr),
            ptr == 0 ==> (r matches Err(ProjCreateError::ProjError(m)) && m == message),
    {
        if ptr == 0 {
            Err(ProjCreateError::ProjError(message))
        } else {
            Ok(ptr)
        }
    }

    /// The handles to release when making an object fails after its context, and maybe its
    /// area, were acquired: the area first, then the context.
    pub fn abandoned(ctx: usize, area: Option<usize>) -> (r: Vec<NativeHandle>)
        ensures
            r@ == match area {
                Some(a) => seq![NativeHandle::Area(a), NativeHandle::Context(ctx)],
                None => seq![NativeHandle::Context(ctx)],
            },
    {
        let mut r: Vec<NativeHandle> = Vec::new();
        match area {
            Some(a) => r.push(NativeHandle::Area(a)),
            None => {},
        }
        r.push(NativeHandle::Context(ctx));
        assert(r@ =~= match area {
            Some(a) => seq![NativeHandle::Area(a), NativeHandle::Context(ctx)],
            None => seq![NativeHandle::Context(ctx)],
        });
        r
    }

    /// Make the object from the pipeline a creating call returned in context `ctx` with
    /// area `area`; zero means that the engine refused, with `message`, and then the
    /// context and area are handed back for release.
    pub fn assemble(ptr: usize, ctx: usize, area: Option<usize>, message: String) -> (r: Result<
        Proj,
        (ProjCreateError, Vec<NativeHandle>),
    >)
        requires
            ctx != 0,
            area != Some(0usize),
        ensures
            ptr != 0 ==> (r matches Ok(p) && p.pipeline_addr() == ptr && p.context_addr() == ctx
                && p.area_addr() == area),
            ptr == 0 ==> (r matches Err((ProjCreateError::ProjError(m), handles)) && m == message
                && handles@ == match area {
                Some(a) => seq![NativeHandle::Area(a), NativeHandle::Context(ctx)],
                None => seq![NativeHandle::Context(ctx)],
            }),
    {
        if ptr == 0 {
            Err((ProjCreateError::ProjError(message), Proj::abandoned(ctx, area)))
        } else {
            Ok(Proj::from_handles(ptr, ctx, area))
        }
    }

    /// Check the handle returned when attaching coordinate metadata; zero means that the
    /// object was a pipeline.
    pub fn metadata_created(ptr: usize) -> (r: Result<usize, ProjCreateError>)
        ensures
            ptr != 0 ==> r == Ok::<usize, ProjCreateError>(ptr),
            ptr == 0 ==> r matches Err(ProjCreateError::MetadataObjectCreation),
    {
        if ptr == 0 {
            Err(ProjCreateError::MetadataObjectCreation)
        } else {
            Ok(ptr)
        }
    }

    /// Native address of the pipeline.
    pub fn pipeline_ptr(&self) -> (r: usize)
        ensures
            r == self.pipeline_addr(),
            r != 0,
    {
        proof {
            use_type_invariant(self);
        }
        self.c_proj
    }

    /// Native address of the context.
    pub fn context_ptr(&self) -> (r: usize)
        ensures
            r == self.context_addr(),
            r != 0,
    {
        proof {
            use_type_invariant(self);
        }
        self.ctx
    }

    /// Native address of the area of use, if the object has one.
    pub fn area_ptr(&self) -> (r: Option<usize>)
        ensures
            r == self.area_addr(),
            r != Some(0usize),
    {
        proof {
            use_type_invariant(self);
        }
        self.area
    }

    /// The current definition, from the engine's description of the pipeline.
    pub fn def(definition: Option<String>) -> (r: Result<String, ProjError>)
        ensures
            match definition {
                Some(d) => r matches Ok(s) && s@ == d@,
                None => r matches Err(ProjError::Definition),
            },
    {
        match definition {
            Some(d) => Ok(d),
            None => Err(ProjError::Definition),
        }
    }

    /// The result of one transformation: the engine's error code is read right after the
    /// call, having been reset right before it, so only this call's failure is reported.
    pub fn transform_outcome(op: Transformation, errno: i32, message: String) -> (r: Result<
        (),
        ProjError,
    >)
        ensures
            r == transform_result(op, errno, message),
    {
        if errno == 0 {
            Ok(())
        } else {
            match op {
                Transformation::Projection => Err(ProjError::Projection(message)),
                Transformation::Conversion => Err(ProjError::Conversion(message)),
            }
        }
    }

    /// The result of a batch transformation: it succeeds as a whole only when the error code
    /// is zero and the call returned zero; otherwise it fails as a projection or a conversion,
    /// as the batch was one.
    pub fn batch_outcome(op: Transformation, errno: i32, status: i32, message: String) -> (r: Result<
        (),
        ProjError,
    >)
        ensures
            errno == 0 && status == 0 ==> r == Ok::<(), ProjError>(()),
            !(errno == 0 && status == 0) ==> r == Err::<(), ProjError>(
                match op {
                    Transformation::Projection => ProjError::Projection(message),
                    Transformation::Conversion => ProjError::Conversion(message),
                },
            ),
    {
        if errno == 0 && status == 0 {
            Ok(())
        } else {
            match op {
                Transformation::Projection => Err(ProjError::Projection(message)),
                Transformation::Conversion => Err(ProjError::Conversion(message)),
            }
        }
    }

    /// The handles to release, in order: the area of use, then the pipeline, then the context.
    pub fn release_order(&self) -> (r: Vec<NativeHandle>)
        ensures
            r@ == match self.area_addr() {
                Some(a) => seq![
                    NativeHandle::Area(a),
                    NativeHandle::Pipeline(self.pipeline_addr()),
                    NativeHandle::Context(self.context_addr()),
                ],
                None => seq![
                    NativeHandle::Pipeline(self.pipeline_addr()),
                    NativeHandle::Context(self.context_addr()),
                ],
            },
    {
        let mut r: Vec<NativeHandle> = Vec::new();
        match self.area {
            Some(a) => r.push(NativeHandle::Area(a)),
            None => {},
        }
        r.push(NativeHandle::Pipeline(self.c_proj));
        r.push(NativeHandle::Context(self.ctx));
        assert(r@ =~= match self.area {
            Some(a) => seq![
                NativeHandle::Area(a),
                NativeHandle::Pipeline(self.c_proj),
                NativeHandle::Context(self.ctx),
            ],
            None => seq![NativeHandle::Pipeline(self.c_proj), NativeHandle::Context(self.ctx)],
        });
        r
    }
}

/// A context being configured before a transformation object is made from it.
pub struct ProjBuilder {
    ctx: usize,
}

impl ProjBuilder {
    #[verifier::type_invariant]
    spec fn non_null(&self) -> bool {
        self.ctx != 0
    }

    pub closed spec fn context_addr(&self) -> nat {
        self.ctx as nat
    }

    /// A builder owning the context at `ctx`.
    pub fn from_context(ctx: usize) -> (r: ProjBuilder)
        requires
            ctx != 0,
        ensures
            r.context_addr() == ctx,
    {
        ProjBuilder { ctx }
    }

    /// Native address of the context being configured.
    pub fn context_ptr(&self) -> (r: usize)
        ensures
            r == self.context_addr(),
            r != 0,
    {
        proof {
            use_type_invariant(self);
        }
        self.ctx
    }

    /// Hand the configured context over to the object being made, keeping the fresh context
    /// `fresh` in its place so that the builder still owns exactly one.
    pub fn take_context(&mut self, fresh: usize) -> (r: usize)
        requires
            fresh != 0,
        ensures
            r == old(self).context_addr(),
            r != 0,
            final(self).context_addr() == fresh,
    {
        proof {
            use_type_invariant(&*self);
        }
        let taken = self.ctx;
        self.ctx = fresh;
        taken
    }

    /// The handle to release when the builder goes: its context.
    pub fn release_order(&self) -> (r: Vec<NativeHandle>)
        ensures
            r@ == seq![NativeHandle::Context(self.context_addr() as usize)],
    {
        let r = vec![NativeHandle::Context(self.ctx)];
        assert(r@ =~= seq![NativeHandle::Context(self.context_addr() as usize)]);
        r
    }

    /// The result of registering the grid download callbacks, from the engine's answer.
    pub fn callbacks_result(status: i32) -> (r: Result<(), ProjError>)
        ensures
            status == PROJ_TRUE ==> r == Ok::<(), ProjError>(()),
            status != PROJ_TRUE ==> r matches Err(ProjError::Network),
    {
        if status == PROJ_TRUE {
            Ok(())
        } else {
            Err(ProjError::Network)
        }
    }

    /// The result of switching network access to `enable`, from the state the engine
    /// reports afterwards: `1` or `0` as requested, and an error when the state differs.
    pub fn network_switch_result(enable: bool, reported: i32) -> (r: Result<u8, ProjError>)
        ensures
            enable && reported == 1 ==> r == Ok::<u8, ProjError>(1),
            !enable && reported == 0 ==> r == Ok::<u8, ProjError>(0),
            reported != (if enable { 1i32 } else { 0i32 }) ==> r matches Err(ProjError::Network),
    {
        let wanted: i32 = if enable { 1 } else { 0 };
        if reported == wanted {
            Ok(if enable { 1 } else { 0 })
        } else {
            Err(ProjError::Network)
        }
    }
}

/// Information about the engine's release.
#[derive(Clone, Debug)]
pub struct Info {
    pub major: i32,
    pub minor: i32,
    pub patch: i32,
    pub release: String,
    pub version: String,
    pub searchpath: String,
}

} // verus!
