//! The engine instance, its module lists and its log.

use std::borrow::Cow;
use std::marker::PhantomData;
use vstd::prelude::*;

use crate::enums::LogLevel;
use crate::handle::{HandleState, NativeHandle};
use crate::list::cursor_step;
use crate::reply::{status, status_of};
use crate::sys::libvlc_module_description_t;
use crate::tools::{
    args_error, args_marshal, args_of, from_cstr, from_cstr_ref, is_marshaled, native_text,
    to_cstr_array, ArgsError, NativeArgs,
};

verus! {

/// An instance of the engine.
///
/// Owns the native instance: it is released once, by the first
/// [`Instance::release`].
#[derive(Debug)]
pub struct Instance {
    handle: NativeHandle,
}

/// A list of module descriptions.
///
/// Owns the native list: it is released once, by the first
/// [`ModuleDescriptionList::release`].
#[derive(Debug)]
pub struct ModuleDescriptionList {
    handle: NativeHandle,
}

/// Cursor over a module description list.
///
/// The cursor borrows the list and never releases it. It holds the address
/// of the node to read next, 0 once the list is exhausted.
#[derive(Debug)]
pub struct ModuleDescriptionListIter<'a> {
    ptr: usize,
    _phantomdata: PhantomData<&'a usize>,
}

/// Description of a module.
/// The strings are owned.
#[derive(Clone, PartialEq, Eq, Hash, Debug)]
pub struct ModuleDescription {
    pub name: Option<String>,
    pub shortname: Option<String>,
    pub longname: Option<String>,
    pub help: Option<String>,
}

/// Description of a module.
/// The strings borrow the native list where they can.
#[derive(Clone, PartialEq, Eq, Hash, Debug)]
pub struct ModuleDescriptionRef<'a> {
    pub name: Option<Cow<'a, str>>,
    pub shortname: Option<Cow<'a, str>>,
    pub longname: Option<Cow<'a, str>>,
    pub help: Option<Cow<'a, str>>,
}

/// The context of a log message.
#[derive(Clone, Copy, Debug, PartialEq, Eq, Structural)]
pub struct Log {
    ptr: usize,
}

/// True when `d` is the description read from the node `node`.
pub open spec fn is_description_of(
    node: libvlc_module_description_t,
    d: ModuleDescriptionRef,
) -> bool {
    &&& d.name.deep_view() == native_text(node.psz_name)
    &&& d.shortname.deep_view() == native_text(node.psz_shortname)
    &&& d.longname.deep_view() == native_text(node.psz_longname)
    &&& d.help.deep_view() == native_text(node.psz_help)
}

/// Copies an optional text.
fn owned(text: &Option<Cow<'_, str>>) -> (r: Option<String>)
    ensures
        r.deep_view() == text.deep_view(),
{
    match text {
        None => None,
        Some(Cow::Borrowed(s)) => Some((*s).to_owned()),
        Some(Cow::Owned(s)) => Some(s.clone()),
    }
}

/// Reads the engine's version string.
pub fn version(p: Option<&[u8]>) -> (r: String)
    requires
        p is Some,
    ensures
        Some(r@) == native_text(p),
{
    match from_cstr(p) {
        Some(s) => s,
        None => String::new(),
    }
}

/// Reads the string that names the compiler of the engine.
pub fn compiler(p: Option<&[u8]>) -> (r: String)
    requires
        p is Some,
    ensures
        Some(r@) == native_text(p),
{
    match from_cstr(p) {
        Some(s) => s,
        None => String::new(),
    }
}

/// Reads the engine's last error message, if there is one.
pub fn errmsg(p: Option<&[u8]>) -> (r: Option<String>)
    ensures
        r.deep_view() == native_text(p),
{
    from_cstr(p)
}

impl Instance {
    /// The address of the native instance.
    pub closed spec fn ptr(&self) -> usize {
        self.handle.ptr()
    }

    /// The state of this owner's claim on the native instance.
    pub closed spec fn lifetime(&self) -> HandleState {
        self.handle.state()
    }

    /// Takes ownership of the instance that a native constructor returned.
    ///
    /// A null address means that construction failed, and gives `None`.
    ///
    /// Each call takes over exactly one reference that the engine handed
    /// out. An address is passed here once for each such reference and no
    /// more often: a second owner of the same object needs a reference of
    /// its own, which only the engine can give.
    pub fn from_raw(p: usize) -> (r: Option<Instance>)
        ensures
            r is Some <==> p != 0,
            r matches Some(h) ==> h.ptr() == p && h.lifetime() == HandleState::Live,
    {
        match NativeHandle::from_raw(p) {
            Some(handle) => Some(Instance { handle }),
            None => None,
        }
    }

    /// Returns the address of the native instance. It is never null.
    pub fn raw(&self) -> (p: usize)
        ensures
            p == self.ptr(),
            p != 0,
    {
        self.handle.raw()
    }

    /// Tells whether the native instance is still held.
    pub fn is_live(&self) -> (b: bool)
        ensures
            b == (self.lifetime() == HandleState::Live),
            !b == (self.lifetime() == HandleState::Released),
    {
        self.handle.is_live()
    }

    /// Gives the native instance up.
    ///
    /// The first call answers with the address to release; every later call
    /// answers `None`.
    pub fn release(&mut self) -> (r: Option<usize>)
        ensures
            final(self).lifetime() == HandleState::Released,
            final(self).ptr() == old(self).ptr(),
            r is Some <==> old(self).lifetime() == HandleState::Live,
            r matches Some(p) ==> p == old(self).ptr(),
    {
        self.handle.release()
    }

    /// Marshals the arguments with which an instance is created.
    ///
    /// `None` and the empty list both give count 0 and no strings. Fails
    /// when the list is too long for a native count, else at the first
    /// argument that holds a null byte; nothing is then sent to the engine.
    pub fn with_args(args: &Option<Vec<String>>) -> (r: Result<NativeArgs, ArgsError>)
        ensures
            r is Ok <==> args_marshal(args_of(*args)),
            r matches Ok(native) ==> is_marshaled(*args, native),
            r matches Err(e) ==> e == args_error(args_of(*args)),
    {
        to_cstr_array(args)
    }

    /// Gives the arguments with which an instance is created by default:
    /// count 0 and no strings.
    pub fn new() -> (native: NativeArgs)
        ensures
            native.argc == 0,
            native.argv@.len() == 0,
            is_marshaled(None, native),
    {
        NativeArgs { argc: 0, argv: Vec::new() }
    }

    /// Reads the answer to a request to start a user interface.
    ///
    /// The engine answers 0 for success.
    pub fn add_intf(rc: i32) -> (r: Result<(), ()>)
        ensures
            r == status_of(rc),
    {
        status(rc)
    }
}

impl ModuleDescriptionList {
    /// The address of the native list.
    pub closed spec fn ptr(&self) -> usize {
        self.handle.ptr()
    }

    /// The state of this owner's claim on the native list.
    pub closed spec fn lifetime(&self) -> HandleState {
        self.handle.state()
    }

    /// Takes ownership of the list that a native constructor returned.
    ///
    /// A null address means that construction failed, and gives `None`.
    ///
    /// Each call takes over exactly one reference that the engine handed
    /// out. An address is passed here once for each such reference and no
    /// more often: a second owner of the same object needs a reference of
    /// its own, which only the engine can give.
    pub fn from_raw(p: usize) -> (r: Option<ModuleDescriptionList>)
        ensures
            r is Some <==> p != 0,
            r matches Some(h) ==> h.ptr() == p && h.lifetime() == HandleState::Live,
    {
        match NativeHandle::from_raw(p) {
            Some(handle) => Some(ModuleDescriptionList { handle }),
            None => None,
        }
    }

    /// Returns the address of the native list. It is never null.
    pub fn raw(&self) -> (p: usize)
        ensures
            p == self.ptr(),
            p != 0,
    {
        self.handle.raw()
    }

    /// Tells whether the native list is still held.
    pub fn is_live(&self) -> (b: bool)
        ensures
            b == (self.lifetime() == HandleState::Live),
            !b == (self.lifetime() == HandleState::Released),
    {
        self.handle.is_live()
    }

    /// Gives the native list up.
    ///
    /// The first call answers with the address to release; every later call
    /// answers `None`.
    pub fn release(&mut self) -> (r: Option<usize>)
        ensures
            final(self).lifetime() == HandleState::Released,
            final(self).ptr() == old(self).ptr(),
            r is Some <==> old(self).lifetime() == HandleState::Live,
            r matches Some(p) ==> p == old(self).ptr(),
    {
        self.handle.release()
    }

    /// Starts a walk at the head of the list.
    pub fn into_iter<'a>(&'a self) -> (it: ModuleDescriptionListIter<'a>)
        ensures
            it.cursor() == self.ptr(),
    {
        ModuleDescriptionListIter { ptr: self.raw(), _phantomdata: PhantomData }
    }
}

impl<'a> ModuleDescriptionListIter<'a> {
    /// The address of the node to read next, 0 if there is none.
    pub closed spec fn cursor(&self) -> usize {
        self.ptr
    }

    /// Starts a walk at address `head`, which may be null for an empty list.
    pub fn from_raw(head: usize) -> (it: ModuleDescriptionListIter<'a>)
        ensures
            it.cursor() == head,
    {
        ModuleDescriptionListIter { ptr: head, _phantomdata: PhantomData }
    }

    /// Tells which node is to be read next.
    ///
    /// `None` means that the walk is over: there is no node, and the null
    /// address must not be read.
    pub fn current(&self) -> (r: Option<usize>)
        ensures
            r is None <==> self.cursor() == 0,
            r matches Some(p) ==> p == self.cursor(),
    {
        if self.ptr == 0 {
            None
        } else {
            Some(self.ptr)
        }
    }

    /// Takes the node that was read at the cursor and moves on to its
    /// successor.
    ///
    /// When the walk is over, `node` is ignored and the answer is `None`.
    pub fn next(&mut self, node: &libvlc_module_description_t<'a>) -> (r: Option<
        ModuleDescriptionRef<'a>,
    >)
        ensures
            final(self).cursor() == cursor_step(old(self).cursor(), node.p_next),
            r is None <==> old(self).cursor() == 0,
            r matches Some(d) ==> is_description_of(*node, d),
    {
        if self.ptr == 0 {
            return None;
        }
        self.ptr = node.p_next;
        Some(
            ModuleDescriptionRef {
                name: from_cstr_ref(node.psz_name),
                shortname: from_cstr_ref(node.psz_shortname),
                longname: from_cstr_ref(node.psz_longname),
                help: from_cstr_ref(node.psz_help),
            },
        )
    }
}

impl<'a> ModuleDescriptionRef<'a> {
    /// Convert to owned strings.
    ///
    /// The name and the short name are copied. The long name of the result
    /// is a second copy of the name, and its help text a second copy of the
    /// short name.
    pub fn into_owned(&'a self) -> (d: ModuleDescription)
        ensures
            d.name.deep_view() == self.name.deep_view(),
            d.shortname.deep_view() == self.shortname.deep_view(),
            d.longname.deep_view() == self.name.deep_view(),
            d.help.deep_view() == self.shortname.deep_view(),
    {
        ModuleDescription {
            name: owned(&self.name),
            shortname: owned(&self.shortname),
            longname: owned(&self.name),
            help: owned(&self.shortname),
        }
    }
}

impl View for Log {
    type V = usize;

    closed spec fn view(&self) -> usize {
        self.ptr
    }
}

impl Log {
    /// Wraps the address of a log context.
    pub fn from_raw(ptr: usize) -> (r: Log)
        ensures
            r@ == ptr,
    {
        Log { ptr }
    }

    /// Returns the address of the log context.
    pub fn raw(&self) -> (p: usize)
        ensures
            p == self@,
    {
        self.ptr
    }
}

/// Hands one log message to the application's callback.
///
/// `level` is the native severity, `ctx` the address of the message's
/// context and `buf` the buffer that holds the formatted message. The
/// callback is called once, with the decoded severity and the message's
/// text, if the severity is recognised; otherwise the number is given back
/// and the callback is not called.
pub fn logging_cb<F: Fn(LogLevel, Log, Cow<str>)>(f: &F, level: i32, ctx: usize, buf: &[u8]) -> (r:
    Result<(), i32>)
    requires
        forall|l: LogLevel, c: Log, m: Cow<str>| f.requires((l, c, m)),
    ensures
        r is Ok <==> LogLevel::of_raw(level) is Some,
        r matches Err(x) ==> x == level,
        r is Ok ==> exists|c: Log, m: Cow<str>|
            {
                &&& c@ == ctx
                &&& Some(m@) == native_text(Some(buf))
                &&& #[trigger] f.ensures((LogLevel::of_raw(level).unwrap(), c, m), ())
            },
{
    match LogLevel::from_raw(level) {
        None => Err(level),
        Some(l) => {
            match from_cstr_ref(Some(buf)) {
                Some(m) => {
                    f(l, Log { ptr: ctx }, m);
                    Ok(())
                },
                None => Ok(()),
            }
        },
    }
}

} // verus!
