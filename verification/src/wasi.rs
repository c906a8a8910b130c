use vstd::prelude::*;
use vstd::string::StringSliceAdditionalSpecFns;

use crate::error::{non_null_addr, Error, ErrorModel};

verus! {

/// Whether the UTF-8 bytes of `s` hold a NUL byte, which a C string cannot.
pub open spec fn has_nul(s: &str) -> bool {
    s.spec_bytes().contains(0u8)
}

/// The bytes of the C string holding `s`: its UTF-8 bytes and a NUL
/// terminator.
pub open spec fn c_string_bytes(s: &str) -> Seq<u8> {
    s.spec_bytes().push(0u8)
}

/// Whether `b` is a well formed C string: it ends with a NUL byte, and that
/// terminator is its only NUL byte.
pub open spec fn is_c_string(b: Seq<u8>) -> bool {
    &&& b.len() >= 1
    &&& b.last() == 0u8
    &&& forall|i: int| 0 <= i < b.len() - 1 ==> b[i] != 0u8
}

/// A C string made from a string without NUL bytes is well formed: its only
/// NUL byte is the terminator, and the bytes before it are those of the string.
pub proof fn c_string_is_well_formed(s: &str)
    requires
        !has_nul(s),
    ensures
        is_c_string(c_string_bytes(s)),
        c_string_bytes(s).drop_last() == s.spec_bytes(),
{
    let b = s.spec_bytes();
    assert(c_string_bytes(s).drop_last() =~= b);
    assert forall|i: int| 0 <= i < c_string_bytes(s).len() - 1 implies c_string_bytes(s)[i]
        != 0u8 by {
        assert(c_string_bytes(s)[i] == b[i]);
        if b[i] == 0u8 {
            assert(b.contains(0u8));
        }
    }
}

/// The C string holding `s`, as its bytes with the NUL terminator, or `None`
/// when `s` holds a NUL byte.
pub fn c_string(s: &str) -> (r: Option<Vec<u8>>)
    ensures
        r is None <==> has_nul(s),
        r matches Some(v) ==> v@ == c_string_bytes(s),
{
    let bytes = s.as_bytes();
    let mut out: Vec<u8> = Vec::new();
    let mut i: usize = 0;
    while i < bytes.len()
        invariant
            bytes@ == s.spec_bytes(),
            i <= bytes@.len(),
            out@ == bytes@.subrange(0, i as int),
            forall|j: int| 0 <= j < i ==> bytes@[j] != 0u8,
        decreases bytes@.len() - i,
    {
        if bytes[i] == 0 {
            assert(bytes@[i as int] == 0u8);
            return None;
        }
        out.push(bytes[i]);
        i = i + 1;
        assert(out@ =~= bytes@.subrange(0, i as int));
    }
    assert(out@ =~= bytes@);
    assert(!bytes@.contains(0u8)) by {
        if bytes@.contains(0u8) {
            let k = choose|k: int| 0 <= k < bytes@.len() && bytes@[k] == 0u8;
            assert(bytes@[k] != 0u8);
        }
    }
    out.push(0u8);
    Some(out)
}

/// The C strings holding each of `strs`, in order, or the error that the
/// first one holding a NUL byte raises.
pub fn to_cstrings(strs: &[&str]) -> (r: Result<Vec<Vec<u8>>, Error>)
    ensures
        match r {
            Ok(v) => (forall|i: int| 0 <= i < strs@.len() ==> !has_nul(#[trigger] strs@[i]))
                && v@.len() == strs@.len() && forall|i: int|
                0 <= i < strs@.len() ==> (#[trigger] v@[i])@ == c_string_bytes(strs@[i]),
            Err(e) => (exists|i: int| 0 <= i < strs@.len() && has_nul(#[trigger] strs@[i]))
                && e@ == ErrorModel::Message("string contains an interior null byte"@),
        },
{
    let mut out: Vec<Vec<u8>> = Vec::new();
    let mut i: usize = 0;
    while i < strs.len()
        invariant
            i <= strs@.len(),
            out@.len() == i,
            forall|j: int| 0 <= j < i ==> !has_nul(#[trigger] strs@[j]),
            forall|j: int| 0 <= j < i ==> (#[trigger] out@[j])@ == c_string_bytes(strs@[j]),
        decreases strs@.len() - i,
    {
        match c_string(strs[i]) {
            Some(c) => {
                out.push(c);
            },
            None => {
                assert(has_nul(strs@[i as int]));
                return Err(Error::Message("string contains an interior null byte".to_owned()));
            },
        }
        i = i + 1;
    }
    Ok(out)
}

/// The WASI settings of a store, wrapping `zwasm_wasi_config_t`.
#[derive(Debug)]
pub struct WasiConfig {
    addr: usize,
}

impl View for WasiConfig {
    type V = usize;

    /// The address of the runtime object.
    closed spec fn view(&self) -> usize {
        self.addr
    }
}

impl WasiConfig {
    #[verifier::type_invariant]
    spec fn non_null(self) -> bool {
        self.addr != 0
    }

    /// The address of the runtime object; never null.
    pub fn handle(&self) -> (r: usize)
        ensures
            r == self@,
            r != 0,
    {
        proof {
            use_type_invariant(self);
        }
        self.addr
    }

    /// Wraps the configuration that `zwasm_wasi_config_new` returned at `raw`.
    ///
    /// Fails when `raw` is null.
    pub fn new(raw: usize) -> (r: Result<WasiConfig, Error>)
        ensures
            match r {
                Ok(v) => raw != 0 && v@ == raw,
                Err(e) => raw == 0 && e@ == ErrorModel::Message("failed to create WASI config"@),
            },
    {
        let addr = non_null_addr(raw, "failed to create WASI config")?;
        Ok(WasiConfig { addr })
    }

    /// The outcome of letting the guest inherit the host's environment, given
    /// whether `zwasm_wasi_config_inherit_env` succeeded.
    pub fn inherit_env(&mut self, inherited: bool) -> (r: Result<(), Error>)
        ensures
            *final(self) == *old(self),
            inherited ==> r is Ok,
            !inherited ==> (r matches Err(e) && e@ == ErrorModel::Message(
                "failed to inherit env"@,
            )),
    {
        if inherited {
            Ok(())
        } else {
            Err(Error::Message("failed to inherit env".to_owned()))
        }
    }

    /// The C strings to hand `zwasm_wasi_config_set_args` as the guest's
    /// arguments, in order.
    ///
    /// Fails, and nothing is to be handed over, when an argument holds a NUL
    /// byte.
    pub fn set_args(&mut self, args: &[&str]) -> (r: Result<Vec<Vec<u8>>, Error>)
        ensures
            *final(self) == *old(self),
            match r {
                Ok(v) => (forall|i: int| 0 <= i < args@.len() ==> !has_nul(#[trigger] args@[i]))
                    && v@.len() == args@.len() && forall|i: int|
                    0 <= i < args@.len() ==> (#[trigger] v@[i])@ == c_string_bytes(args@[i]),
                Err(e) => (exists|i: int| 0 <= i < args@.len() && has_nul(#[trigger] args@[i]))
                    && e@ == ErrorModel::Message("string contains an interior null byte"@),
            },
    {
        to_cstrings(args)
    }

    /// The C strings to hand `zwasm_wasi_config_set_envs`: the keys and, in the
    /// same order, the values of `envs`.
    ///
    /// Fails, and nothing is to be handed over, when a key or a value holds a
    /// NUL byte.
    pub fn set_envs(&mut self, envs: &[(&str, &str)]) -> (r: Result<
        (Vec<Vec<u8>>, Vec<Vec<u8>>),
        Error,
    >)
        ensures
            *final(self) == *old(self),
            match r {
                Ok((keys, vals)) => (forall|i: int|
                    0 <= i < envs@.len() ==> !has_nul((#[trigger] envs@[i]).0) && !has_nul(
                        envs@[i].1,
                    )) && keys@.len() == envs@.len() && vals@.len() == envs@.len() && (forall|
                    i: int,
                |
                    0 <= i < envs@.len() ==> (#[trigger] keys@[i])@ == c_string_bytes(envs@[i].0))
                    && (forall|i: int|
                    0 <= i < envs@.len() ==> (#[trigger] vals@[i])@ == c_string_bytes(
                        envs@[i].1,
                    )),
                Err(e) => (exists|i: int|
                    0 <= i < envs@.len() && (has_nul((#[trigger] envs@[i]).0) || has_nul(
                        envs@[i].1,
                    ))) && e@ == ErrorModel::Message("string contains an interior null byte"@),
            },
    {
        let mut keys: Vec<&str> = Vec::new();
        let mut vals: Vec<&str> = Vec::new();
        let mut i: usize = 0;
        while i < envs.len()
            invariant
                i <= envs@.len(),
                keys@.len() == i,
                vals@.len() == i,
                forall|j: int| 0 <= j < i ==> #[trigger] keys@[j] == envs@[j].0,
                forall|j: int| 0 <= j < i ==> #[trigger] vals@[j] == envs@[j].1,
            decreases envs@.len() - i,
        {
            let (k, v) = envs[i];
            keys.push(k);
            vals.push(v);
            i = i + 1;
        }
        let c_keys = match to_cstrings(keys.as_slice()) {
            Ok(c) => c,
            Err(e) => {
                let ghost j = choose|j: int| 0 <= j < keys@.len() && has_nul(#[trigger] keys@[j]);
                assert(has_nul(envs@[j].0));
                return Err(e);
            },
        };
        let c_vals = match to_cstrings(vals.as_slice()) {
            Ok(c) => c,
            Err(e) => {
                let ghost j = choose|j: int| 0 <= j < vals@.len() && has_nul(#[trigger] vals@[j]);
                assert(has_nul(envs@[j].1));
                return Err(e);
            },
        };
        assert forall|j: int| 0 <= j < envs@.len() implies !has_nul((#[trigger] envs@[j]).0)
            && !has_nul(envs@[j].1) by {
            assert(!has_nul(keys@[j]));
            assert(!has_nul(vals@[j]));
        }
        Ok((c_keys, c_vals))
    }

    /// The C strings of a host directory and of the path under which the guest
    /// sees it, to hand `zwasm_wasi_config_preopen_dir`.
    ///
    /// Fails when either holds a NUL byte, the host path being checked first.
    /// Whether the directory was then opened is decided by
    /// [`WasiConfig::preopen_outcome`].
    pub fn preopen_dir(&mut self, host_path: &str, guest_path: &str) -> (r: Result<
        (Vec<u8>, Vec<u8>),
        Error,
    >)
        ensures
            *final(self) == *old(self),
            has_nul(host_path) ==> (r matches Err(e) && e@ == ErrorModel::Message(
                "host path contains an interior null byte"@,
            )),
            !has_nul(host_path) && has_nul(guest_path) ==> (r matches Err(e) && e@
                == ErrorModel::Message("guest path contains an interior null byte"@)),
            !has_nul(host_path) && !has_nul(guest_path) ==> (r matches Ok((h, g)) && h@
                == c_string_bytes(host_path) && g@ == c_string_bytes(guest_path)),
    {
        let host = match c_string(host_path) {
            Some(h) => h,
            None => {
                return Err(Error::Message("host path contains an interior null byte".to_owned()));
            },
        };
        let guest = match c_string(guest_path) {
            Some(g) => g,
            None => {
                return Err(Error::Message("guest path contains an interior null byte".to_owned()));
            },
        };
        Ok((host, guest))
    }

    /// The outcome of a preopen, given whether `zwasm_wasi_config_preopen_dir`
    /// succeeded.
    pub fn preopen_outcome(&mut self, opened: bool) -> (r: Result<(), Error>)
        ensures
            *final(self) == *old(self),
            opened ==> r is Ok,
            !opened ==> (r matches Err(e) && e@ == ErrorModel::Message(
                "failed to preopen directory"@,
            )),
    {
        if opened {
            Ok(())
        } else {
            Err(Error::Message("failed to preopen directory".to_owned()))
        }
    }
}

} // verus!
