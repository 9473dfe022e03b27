//! Requests to the engine's video-on-demand and broadcast manager.

use vstd::prelude::*;
use vstd::string::StringSliceAdditionalSpecFns;

use crate::instance::Instance;
use crate::reply::{status, status_of, value};
use crate::tools::{
    args_error, args_marshal, args_of, first_nul, flag, flag_of, from_cstr, is_marshaled,
    native_text, nul_free, terminated, to_cstr, to_cstr_array, ArgsError, NativeArgs, NulError,
};

verus! {

/// Why the arguments of a request could not be marshaled.
#[derive(Clone, Copy, Debug, PartialEq, Eq, Structural)]
pub enum VlmError {
    /// The name holds a null byte.
    Name(NulError),
    /// The input locator holds a null byte.
    Input(NulError),
    /// The output locator holds a null byte.
    Output(NulError),
    /// The name of the muxer holds a null byte.
    Mux(NulError),
    /// The options cannot be marshaled.
    Options(ArgsError),
}

/// The native arguments of a request to add a broadcast.
pub struct BroadcastArgs {
    pub name: Vec<u8>,
    pub input: Vec<u8>,
    pub output: Vec<u8>,
    pub options: NativeArgs,
    pub enabled: i32,
    pub loop_broadcast: i32,
}

/// The native arguments of a request to add a video on demand.
pub struct VodArgs {
    pub name: Vec<u8>,
    pub input: Vec<u8>,
    pub options: NativeArgs,
    pub enabled: i32,
    pub mux: Vec<u8>,
}

/// The error of a request whose texts are `name`, `input` and `third`, in
/// the order in which they are marshaled, followed by the options: the
/// first of them that cannot be marshaled decides.
pub open spec fn first_error(
    name: &str,
    input: &str,
    third: &str,
    third_is_mux: bool,
    options: Option<Vec<String>>,
) -> VlmError {
    if !nul_free(name.spec_bytes()) {
        VlmError::Name(NulError { position: first_nul(name.spec_bytes()) as usize })
    } else if !nul_free(input.spec_bytes()) {
        VlmError::Input(NulError { position: first_nul(input.spec_bytes()) as usize })
    } else if !nul_free(third.spec_bytes()) {
        if third_is_mux {
            VlmError::Mux(NulError { position: first_nul(third.spec_bytes()) as usize })
        } else {
            VlmError::Output(NulError { position: first_nul(third.spec_bytes()) as usize })
        }
    } else {
        VlmError::Options(args_error(args_of(options)))
    }
}

/// True when all texts of a request and its options can be marshaled.
pub open spec fn all_marshal(
    name: &str,
    input: &str,
    third: &str,
    options: Option<Vec<String>>,
) -> bool {
    &&& nul_free(name.spec_bytes())
    &&& nul_free(input.spec_bytes())
    &&& nul_free(third.spec_bytes())
    &&& args_marshal(args_of(options))
}

/// What an engine instance reads from and gives to the native manager.
pub trait Vlm {
    /// Marshals the arguments of a request to add a broadcast.
    ///
    /// Fails at the first of name, input, output and options that cannot
    /// be marshaled; nothing is then sent to the engine.
    fn add_broadcast(
        name: &str,
        input: &str,
        output: &str,
        options: &Option<Vec<String>>,
        enabled: bool,
        loop_broadcast: bool,
    ) -> (r: Result<BroadcastArgs, VlmError>)
        ensures
            r is Ok <==> all_marshal(name, input, output, *options),
            r matches Ok(a) ==> {
                &&& a.name@ == terminated(name.spec_bytes())
                &&& a.input@ == terminated(input.spec_bytes())
                &&& a.output@ == terminated(output.spec_bytes())
                &&& is_marshaled(*options, a.options)
                &&& a.enabled == flag_of(enabled)
                &&& a.loop_broadcast == flag_of(loop_broadcast)
            },
            r matches Err(e) ==> e == first_error(name, input, output, false, *options),
    ;

    /// Marshals the arguments of a request to add a video on demand.
    ///
    /// Fails at the first of name, input, muxer and options that cannot be
    /// marshaled; nothing is then sent to the engine.
    fn add_vod(
        name: &str,
        input: &str,
        mux: &str,
        options: &Option<Vec<String>>,
        enabled: bool,
    ) -> (r: Result<VodArgs, VlmError>)
        ensures
            r is Ok <==> all_marshal(name, input, mux, *options),
            r matches Ok(a) ==> {
                &&& a.name@ == terminated(name.spec_bytes())
                &&& a.input@ == terminated(input.spec_bytes())
                &&& a.mux@ == terminated(mux.spec_bytes())
                &&& is_marshaled(*options, a.options)
                &&& a.enabled == flag_of(enabled)
            },
            r matches Err(e) ==> e == first_error(name, input, mux, true, *options),
    ;

    /// Reads the answer to a request to play a named broadcast.
    ///
    /// The engine answers 0 for success.
    fn play_media(rc: i32) -> (r: Result<(), ()>)
        ensures
            r == status_of(rc),
    ;

    /// Reads the answer to a request to pause a named broadcast.
    ///
    /// The engine answers 0 for success.
    fn pause_media(rc: i32) -> (r: Result<(), ()>)
        ensures
            r == status_of(rc),
    ;

    /// Reads the answer to a request to stop a named broadcast.
    ///
    /// The engine answers 0 for success.
    fn stop_media(rc: i32) -> (r: Result<(), ()>)
        ensures
            r == status_of(rc),
    ;

    /// Reads the length of a media instance.
    ///
    /// The engine answers `-1` for failure.
    fn get_media_instance_length(v: i32) -> (r: Result<i32, ()>)
        ensures
            r is Ok <==> v != -1,
            r matches Ok(x) ==> x == v,
    ;

    /// Reads the time of a media instance.
    ///
    /// The engine answers `-1` for failure.
    fn get_media_instance_time(v: i32) -> (r: Result<i32, ()>)
        ensures
            r is Ok <==> v != -1,
            r matches Ok(x) ==> x == v,
    ;

    /// Reads the rate of a media instance.
    ///
    /// The engine answers `-1` for failure.
    fn get_media_instance_rate(v: i32) -> (r: Result<i32, ()>)
        ensures
            r is Ok <==> v != -1,
            r matches Ok(x) ==> x == v,
    ;

    /// Reads the description of a media. The null pointer is a failure.
    fn show_media(p: Option<&[u8]>) -> (r: Result<String, ()>)
        ensures
            r is Ok <==> p is Some,
            r matches Ok(text) ==> Some(text@) == native_text(p),
    ;
}

impl Vlm for Instance {
    fn add_broadcast(
        name: &str,
        input: &str,
        output: &str,
        options: &Option<Vec<String>>,
        enabled: bool,
        loop_broadcast: bool,
    ) -> (r: Result<BroadcastArgs, VlmError>) {
        let name = match to_cstr(name) {
            Ok(c) => c,
            Err(e) => {
                return Err(VlmError::Name(e));
            },
        };
        let input = match to_cstr(input) {
            Ok(c) => c,
            Err(e) => {
                return Err(VlmError::Input(e));
            },
        };
        let output = match to_cstr(output) {
            Ok(c) => c,
            Err(e) => {
                return Err(VlmError::Output(e));
            },
        };
        let options = match to_cstr_array(options) {
            Ok(a) => a,
            Err(e) => {
                return Err(VlmError::Options(e));
            },
        };
        Ok(
            BroadcastArgs {
                name,
                input,
                output,
                options,
                enabled: flag(enabled),
                loop_broadcast: flag(loop_broadcast),
            },
        )
    }

    fn add_vod(
        name: &str,
        input: &str,
        mux: &str,
        options: &Option<Vec<String>>,
        enabled: bool,
    ) -> (r: Result<VodArgs, VlmError>) {
        let name = match to_cstr(name) {
            Ok(c) => c,
            Err(e) => {
                return Err(VlmError::Name(e));
            },
        };
        let input = match to_cstr(input) {
            Ok(c) => c,
            Err(e) => {
                return Err(VlmError::Input(e));
            },
        };
        let mux = match to_cstr(mux) {
            Ok(c) => c,
            Err(e) => {
                return Err(VlmError::Mux(e));
            },
        };
        let options = match to_cstr_array(options) {
            Ok(a) => a,
            Err(e) => {
                return Err(VlmError::Options(e));
            },
        };
        Ok(VodArgs { name, input, options, enabled: flag(enabled), mux })
    }

    fn play_media(rc: i32) -> (r: Result<(), ()>) {
        status(rc)
    }

    fn pause_media(rc: i32) -> (r: Result<(), ()>) {
        status(rc)
    }

    fn stop_media(rc: i32) -> (r: Result<(), ()>) {
        status(rc)
    }

    fn get_media_instance_length(v: i32) -> (r: Result<i32, ()>) {
        value(v)
    }

    fn get_media_instance_time(v: i32) -> (r: Result<i32, ()>) {
        value(v)
    }

    fn get_media_instance_rate(v: i32) -> (r: Result<i32, ()>) {
        value(v)
    }

    fn show_media(p: Option<&[u8]>) -> (r: Result<String, ()>) {
        match from_cstr(p) {
            Some(data) => Ok(data),
            None => Err(()),
        }
    }
}

} // verus!
