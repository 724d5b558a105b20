//! Raw descriptors, the capabilities over them, and the owning handle.

use vstd::prelude::*;

verus! {

/// The kernel's name for an open I/O resource. It carries no ownership.
pub type RawFd = i32;

/// The reserved value that names no resource at all.
pub const NO_FD: RawFd = -1;

/// A value that can report the raw descriptor it stands for.
pub trait AsRawFd {
    /// The descriptor this value stands for.
    spec fn raw_fd(&self) -> RawFd;

    /// Observes the descriptor. Ownership stays where it was.
    fn as_raw_fd(&self) -> (fd: RawFd)
        ensures
            fd == self.raw_fd(),
    ;
}

/// A value that can take over a raw descriptor.
///
/// The caller hands over a descriptor that is open and that no other live
/// value owns; from then on the new value is responsible for releasing it.
/// The reserved value `NO_FD` is never accepted.
pub trait FromRawFd: Sized + AsRawFd {
    fn from_raw(fd: RawFd) -> (r: Self)
        requires
            fd != NO_FD,
        ensures
            r.raw_fd() == fd,
    ;
}

/// A value that can be consumed, surrendering its raw descriptor.
///
/// The descriptor is not released: the caller becomes responsible for it.
pub trait IntoRawFd: Sized + AsRawFd {
    fn into_raw_fd(self) -> (fd: RawFd)
        ensures
            fd == self.raw_fd(),
    ;
}

/// The two states of an owning handle.
pub enum HandleState {
    /// The handle holds the descriptor and releases it on scope exit.
    Owning(RawFd),
    /// Ownership has moved out; scope exit does nothing.
    Released(RawFd),
}

impl HandleState {
    /// The descriptor named by the handle, in either state.
    pub open spec fn fd(self) -> RawFd {
        match self {
            HandleState::Owning(fd) => fd,
            HandleState::Released(fd) => fd,
        }
    }

    /// Whether scope exit still owes a close.
    pub open spec fn is_owning(self) -> bool {
        self is Owning
    }
}

/// What the scope-exit hook does to a handle in state `s`: the descriptor
/// to close, if any, and the state afterwards.
pub open spec fn release_step(s: HandleState) -> (Option<RawFd>, HandleState) {
    match s {
        HandleState::Owning(fd) => (Some(fd), HandleState::Released(fd)),
        HandleState::Released(fd) => (None, HandleState::Released(fd)),
    }
}

/// The state after ownership has been moved out of a handle in state `s`.
pub open spec fn disown_step(s: HandleState) -> HandleState {
    HandleState::Released(s.fd())
}

/// Once ownership has been moved out of a handle, its scope exit closes
/// nothing, and the handle stays released.
pub proof fn lemma_disowned_handle_closes_nothing(s: HandleState)
    ensures
        release_step(disown_step(s)) == (None::<RawFd>, disown_step(s)),
{
}

/// The scope-exit hook hands out a descriptor at most once: run again, it
/// closes nothing. Either way the descriptor named stays the same.
pub proof fn lemma_release_at_most_once(s: HandleState)
    ensures
        release_step(release_step(s).1).0 is None,
        release_step(s).1.fd() == s.fd(),
        s.is_owning() <==> release_step(s).0 == Some(s.fd()),
{
}

/// Exclusive owner of one raw descriptor.
///
/// Whoever holds an `OwnedFd` runs `release` when it goes out of scope and
/// closes the descriptor that comes back. Ownership leaves only once:
/// through `release`, `disown` or `into_raw_fd`.
pub struct OwnedFd {
    fd: RawFd,
    owning: bool,
}

impl View for OwnedFd {
    type V = HandleState;

    closed spec fn view(&self) -> HandleState {
        if self.owning {
            HandleState::Owning(self.fd)
        } else {
            HandleState::Released(self.fd)
        }
    }
}

impl OwnedFd {
    #[verifier::type_invariant]
    spec fn names_a_resource(self) -> bool {
        self.fd != NO_FD
    }

    /// Whether scope exit still owes a close.
    pub fn is_owning(&self) -> (r: bool)
        ensures
            r == self@.is_owning(),
    {
        self.owning
    }

    /// The scope-exit hook: in the owning state, hands out the descriptor to
    /// close and moves to the released state; otherwise does nothing.
    pub fn release(&mut self) -> (r: Option<RawFd>)
        ensures
            (r, final(self)@) == release_step(old(self)@),
    {
        proof {
            use_type_invariant(&*self);
        }
        if self.owning {
            self.owning = false;
            Some(self.fd)
        } else {
            None
        }
    }

    /// Moves ownership out while the handle stays in place: returns the
    /// descriptor, and scope exit will no longer close it.
    pub fn disown(&mut self) -> (fd: RawFd)
        ensures
            fd == old(self)@.fd(),
            final(self)@ == disown_step(old(self)@),
    {
        proof {
            use_type_invariant(&*self);
        }
        self.owning = false;
        self.fd
    }
}

impl AsRawFd for OwnedFd {
    open spec fn raw_fd(&self) -> RawFd {
        self@.fd()
    }

    fn as_raw_fd(&self) -> (fd: RawFd) {
        self.fd
    }
}

impl FromRawFd for OwnedFd {
    fn from_raw(fd: RawFd) -> (r: Self)
        ensures
            r@ == HandleState::Owning(fd),
    {
        OwnedFd { fd, owning: true }
    }
}

impl IntoRawFd for OwnedFd {
    fn into_raw_fd(self) -> (fd: RawFd)
        ensures
            fd == self@.fd(),
    {
        self.fd
    }
}

} // verus!
