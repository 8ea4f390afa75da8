//! Blending state that is switched on for a while and put back afterwards.
//!
//! The guard decides; the caller performs the `BlendCommand` it hands out
//! on the OpenGL context.
use vstd::prelude::*;
use crate::gl_utils::{check_gl_error, error_report};

verus! {

/// Separate blend factors for the color and the alpha channels.
#[derive(Clone, Copy, Debug, PartialEq, Eq, Structural)]
pub struct SeparateBlend {
    pub src_rgb: u32,
    pub dest_rgb: u32,
    pub src_alpha: u32,
    pub dest_alpha: u32,
}

impl SeparateBlend {
    pub fn new(src_rgb: u32, dest_rgb: u32, src_alpha: u32, dest_alpha: u32) -> (r: Self)
        ensures
            r == (SeparateBlend { src_rgb, dest_rgb, src_alpha, dest_alpha }),
    {
        SeparateBlend { src_rgb, dest_rgb, src_alpha, dest_alpha }
    }
}

/// Lets the owner of a guard veto switching blending on (`enable` true) or
/// off (`enable` false).
pub trait BlendCallback {
    fn allow(&self, enable: bool) -> bool;
}

/// `answer` is an answer that asking `cb` about `enable` can give.
pub open spec fn callback_gives<C: BlendCallback + ?Sized>(cb: &C, enable: bool, answer: bool) -> bool {
    call_ensures(C::allow, (cb, enable), answer)
}

fn ask<C: BlendCallback + ?Sized>(cb: &C, enable: bool) -> (r: bool)
    ensures
        callback_gives(cb, enable, r),
{
    let allow = C::allow;
    allow(cb, enable)
}

/// A change of the blend state for the OpenGL context.
#[derive(Clone, Copy, Debug, PartialEq, Eq, Structural)]
pub enum BlendCommand {
    /// Switch blending on, then set the blend function, and the separate
    /// one when given.
    Enable { src: u32, dest: u32, separate: Option<SeparateBlend> },
    /// Set the blend function, and the separate one when given.
    SetFunc { src: u32, dest: u32, separate: Option<SeparateBlend> },
    /// Switch blending off.
    Disable,
}

/// Blending switched on for the guard's lifetime, with the blend function
/// it was given; whether blending was on before is remembered so that it
/// can be left on when the guard goes.
pub struct BlendGuard {
    original_blend: bool,
    blend_src: u32,
    blend_dest: u32,
    callback: Option<Box<dyn BlendCallback>>,
    pub enabled: bool,
    separate_blend: Option<SeparateBlend>,
}

impl BlendGuard {
    /// Whether blending was on before the guard switched it on.
    pub closed spec fn spec_original_blend(&self) -> bool {
        self.original_blend
    }

    /// The blend function: source and destination factors.
    pub closed spec fn spec_blend_func(&self) -> (u32, u32) {
        (self.blend_src, self.blend_dest)
    }

    pub closed spec fn spec_separate(&self) -> Option<SeparateBlend> {
        self.separate_blend
    }

    /// The guard switches blending on and off at all.
    pub closed spec fn spec_enabled(&self) -> bool {
        self.enabled
    }

    pub closed spec fn has_callback(&self) -> bool {
        self.callback is Some
    }

    /// The command that switches blending on with the guard's functions.
    pub open spec fn enable_command(&self) -> BlendCommand {
        BlendCommand::Enable {
            src: self.spec_blend_func().0,
            dest: self.spec_blend_func().1,
            separate: self.spec_separate(),
        }
    }

    /// The guard for a context in which blending was on (`original_blend`)
    /// or off before, and has now been switched on with the factors
    /// `blend_src` and `blend_dest`.
    pub fn new(original_blend: bool, blend_src: u32, blend_dest: u32) -> (r: Self)
        ensures
            r.spec_original_blend() == original_blend,
            r.spec_blend_func() == (blend_src, blend_dest),
            r.spec_enabled(),
            r.spec_separate() is None,
            !r.has_callback(),
    {
        BlendGuard {
            original_blend,
            blend_src,
            blend_dest,
            callback: None,
            enabled: true,
            separate_blend: None,
        }
    }

    /// `answer` is what asking the guard's callback about switching blending
    /// on (`enable`) or off can give; without a callback the answer is yes.
    pub closed spec fn callback_answers(&self, enable: bool, answer: bool) -> bool {
        match self.callback {
            Some(cb) => callback_gives(&*cb, enable, answer),
            None => answer,
        }
    }

    /// Without a callback, every request is allowed.
    pub proof fn lemma_no_callback_allows(&self, enable: bool, answer: bool)
        requires
            !self.has_callback(),
        ensures
            self.callback_answers(enable, answer) <==> answer,
    {
    }

    fn call_callback(&self, enable: bool) -> (r: bool)
        ensures
            !self.has_callback() ==> r,
            self.callback_answers(enable, r),
    {
        match &self.callback {
            Some(cb) => {
                ask(&**cb, enable)
            },
            None => true,
        }
    }

    /// Switches blending on again with the guard's functions, unless the
    /// guard is disabled or its callback refuses.
    pub fn enable(&self) -> (r: Option<BlendCommand>)
        ensures
            !self.spec_enabled() ==> r is None,
            self.spec_enabled() ==> exists|a: bool|
                #[trigger] self.callback_answers(true, a) && r == (if a {
                    Some(self.enable_command())
                } else {
                    None
                }),
            self.spec_enabled() && !self.has_callback() ==> r == Some(self.enable_command()),
            r is Some ==> r == Some(self.enable_command()),
    {
        if self.enabled && self.call_callback(true) {
            Some(BlendCommand::Enable { src: self.blend_src, dest: self.blend_dest, separate: self.separate_blend })
        } else {
            None
        }
    }

    /// Switches blending off, unless the guard is disabled or its callback
    /// refuses.
    pub fn disable(&self) -> (r: Option<BlendCommand>)
        ensures
            !self.spec_enabled() ==> r is None,
            self.spec_enabled() ==> exists|a: bool|
                #[trigger] self.callback_answers(false, a) && r == (if a {
                    Some(BlendCommand::Disable)
                } else {
                    None
                }),
            self.spec_enabled() && !self.has_callback() ==> r == Some(BlendCommand::Disable),
            r is Some ==> r == Some(BlendCommand::Disable),
    {
        if self.enabled && self.call_callback(false) {
            Some(BlendCommand::Disable)
        } else {
            None
        }
    }

    /// Sets the blend function for the next time blending is switched on;
    /// refused, with the guard unchanged, when OpenGL reported errors
    /// (`pending_errors`) before.
    pub fn set_blend_func(&mut self, pending_errors: &[u32], src: u32, dest: u32) -> (r: Result<(), String>)
        ensures
            r is Ok <==> pending_errors@.len() == 0,
            r matches Err(m) ==> m@ == error_report(pending_errors@),
            r is Ok ==> final(self).spec_blend_func() == (src, dest),
            r is Err ==> final(self).spec_blend_func() == old(self).spec_blend_func(),
            final(self).spec_original_blend() == old(self).spec_original_blend(),
            final(self).spec_enabled() == old(self).spec_enabled(),
            final(self).spec_separate() == old(self).spec_separate(),
            final(self).has_callback() == old(self).has_callback(),
    {
        match check_gl_error(pending_errors) {
            Err(m) => Err(m),
            Ok(()) => {
                self.blend_src = src;
                self.blend_dest = dest;
                Ok(())
            },
        }
    }

    /// Sets the blend function as `set_blend_func` does and hands out the
    /// command that applies it at once.
    pub fn set_blend_func_immediate(&mut self, pending_errors: &[u32], src: u32, dest: u32) -> (r: Result<BlendCommand, String>)
        ensures
            r is Ok <==> pending_errors@.len() == 0,
            r matches Err(m) ==> m@ == error_report(pending_errors@),
            r is Ok ==> final(self).spec_blend_func() == (src, dest) && r == Ok::<BlendCommand, String>(
                BlendCommand::SetFunc { src, dest, separate: old(self).spec_separate() },
            ),
            r is Err ==> final(self).spec_blend_func() == old(self).spec_blend_func(),
            final(self).spec_original_blend() == old(self).spec_original_blend(),
            final(self).spec_enabled() == old(self).spec_enabled(),
            final(self).spec_separate() == old(self).spec_separate(),
            final(self).has_callback() == old(self).has_callback(),
    {
        match self.set_blend_func(pending_errors, src, dest) {
            Err(m) => Err(m),
            Ok(()) => Ok(BlendCommand::SetFunc { src: self.blend_src, dest: self.blend_dest, separate: self.separate_blend }),
        }
    }

    pub fn get_blend_func(&self) -> (r: (u32, u32))
        ensures
            r == self.spec_blend_func(),
    {
        (self.blend_src, self.blend_dest)
    }

    /// From now on `callback` is asked before blending is switched on or off.
    pub fn set_callback(&mut self, callback: Box<dyn BlendCallback>)
        ensures
            final(self).has_callback(),
            final(self).spec_original_blend() == old(self).spec_original_blend(),
            final(self).spec_blend_func() == old(self).spec_blend_func(),
            final(self).spec_enabled() == old(self).spec_enabled(),
            final(self).spec_separate() == old(self).spec_separate(),
    {
        self.callback = Some(callback);
    }

    pub fn clear_callback(&mut self)
        ensures
            !final(self).has_callback(),
            final(self).spec_original_blend() == old(self).spec_original_blend(),
            final(self).spec_blend_func() == old(self).spec_blend_func(),
            final(self).spec_enabled() == old(self).spec_enabled(),
            final(self).spec_separate() == old(self).spec_separate(),
    {
        self.callback = None;
    }

    /// Sets (or, with `None`, drops) the separate blend function applied
    /// after the blend function.
    pub fn set_separate_blend_func(&mut self, separate_blend: Option<SeparateBlend>) -> (r: Result<(), String>)
        ensures
            r is Ok,
            final(self).spec_separate() == separate_blend,
            final(self).spec_original_blend() == old(self).spec_original_blend(),
            final(self).spec_blend_func() == old(self).spec_blend_func(),
            final(self).spec_enabled() == old(self).spec_enabled(),
            final(self).has_callback() == old(self).has_callback(),
    {
        self.separate_blend = separate_blend;
        Ok(())
    }

    /// What the guard does when it goes: blending that was off before is
    /// switched off again (as `disable` decides); blending that was on is
    /// left on.
    pub fn drop_command(&self) -> (r: Option<BlendCommand>)
        ensures
            self.spec_original_blend() ==> r is None,
            !self.spec_original_blend() && self.spec_enabled() ==> exists|a: bool|
                #[trigger] self.callback_answers(false, a) && r == (if a {
                    Some(BlendCommand::Disable)
                } else {
                    None
                }),
            !self.spec_original_blend() && self.spec_enabled() && !self.has_callback() ==> r == Some(BlendCommand::Disable),
            r is Some ==> r == Some(BlendCommand::Disable) && !self.spec_original_blend() && self.spec_enabled(),
    {
        if !self.original_blend {
            self.disable()
        } else {
            None
        }
    }
}

} // verus!
