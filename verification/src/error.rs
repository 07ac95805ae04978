use vstd::prelude::*;

verus! {

/// The error codes of the Mynewt operating system (`SYS_E...` in its C API).
#[allow(non_camel_case_types)]
#[derive(Clone, Copy, Debug, PartialEq, Eq, Structural)]
pub enum MynewtError {
    SYS_EOK,
    SYS_ENOMEM,
    SYS_EINVAL,
    SYS_ETIMEOUT,
    SYS_ENOENT,
    SYS_EIO,
    SYS_EAGAIN,
    SYS_EACCES,
    SYS_EBUSY,
    SYS_ENODEV,
    SYS_ERANGE,
    SYS_EALREADY,
    SYS_ENOTSUP,
    SYS_EUNKNOWN,
    SYS_EREMOTEIO,
    SYS_EDONE,
    SYS_EPERUSER,
}

/// The result of a call into the operating system.
pub type MynewtResult<T> = Result<T, MynewtError>;

/// The integer code that the C API uses for each error.
pub open spec fn error_code(e: MynewtError) -> int {
    match e {
        MynewtError::SYS_EOK => 0,
        MynewtError::SYS_ENOMEM => -1,
        MynewtError::SYS_EINVAL => -2,
        MynewtError::SYS_ETIMEOUT => -3,
        MynewtError::SYS_ENOENT => -4,
        MynewtError::SYS_EIO => -5,
        MynewtError::SYS_EAGAIN => -6,
        MynewtError::SYS_EACCES => -7,
        MynewtError::SYS_EBUSY => -8,
        MynewtError::SYS_ENODEV => -9,
        MynewtError::SYS_ERANGE => -10,
        MynewtError::SYS_EALREADY => -11,
        MynewtError::SYS_ENOTSUP => -12,
        MynewtError::SYS_EUNKNOWN => -13,
        MynewtError::SYS_EREMOTEIO => -14,
        MynewtError::SYS_EDONE => -15,
        MynewtError::SYS_EPERUSER => -65535,
    }
}

/// Whether a code is one that the C API defines.
pub open spec fn is_known_code(c: int) -> bool {
    (-15 <= c <= 0) || c == -65535
}

/// The error that a code stands for; a code that the C API does not define
/// stands for `SYS_EUNKNOWN`.
pub open spec fn error_of_code(c: int) -> MynewtError {
    if c == 0 {
        MynewtError::SYS_EOK
    } else if c == -1 {
        MynewtError::SYS_ENOMEM
    } else if c == -2 {
        MynewtError::SYS_EINVAL
    } else if c == -3 {
        MynewtError::SYS_ETIMEOUT
    } else if c == -4 {
        MynewtError::SYS_ENOENT
    } else if c == -5 {
        MynewtError::SYS_EIO
    } else if c == -6 {
        MynewtError::SYS_EAGAIN
    } else if c == -7 {
        MynewtError::SYS_EACCES
    } else if c == -8 {
        MynewtError::SYS_EBUSY
    } else if c == -9 {
        MynewtError::SYS_ENODEV
    } else if c == -10 {
        MynewtError::SYS_ERANGE
    } else if c == -11 {
        MynewtError::SYS_EALREADY
    } else if c == -12 {
        MynewtError::SYS_ENOTSUP
    } else if c == -14 {
        MynewtError::SYS_EREMOTEIO
    } else if c == -15 {
        MynewtError::SYS_EDONE
    } else if c == -65535 {
        MynewtError::SYS_EPERUSER
    } else {
        MynewtError::SYS_EUNKNOWN
    }
}

impl MynewtError {
    /// The C API's code for this error.
    pub fn code(self) -> (c: cty::c_int)
        ensures
            c as int == error_code(self),
    {
        match self {
            MynewtError::SYS_EOK => 0,
            MynewtError::SYS_ENOMEM => -1,
            MynewtError::SYS_EINVAL => -2,
            MynewtError::SYS_ETIMEOUT => -3,
            MynewtError::SYS_ENOENT => -4,
            MynewtError::SYS_EIO => -5,
            MynewtError::SYS_EAGAIN => -6,
            MynewtError::SYS_EACCES => -7,
            MynewtError::SYS_EBUSY => -8,
            MynewtError::SYS_ENODEV => -9,
            MynewtError::SYS_ERANGE => -10,
            MynewtError::SYS_EALREADY => -11,
            MynewtError::SYS_ENOTSUP => -12,
            MynewtError::SYS_EUNKNOWN => -13,
            MynewtError::SYS_EREMOTEIO => -14,
            MynewtError::SYS_EDONE => -15,
            MynewtError::SYS_EPERUSER => -65535,
        }
    }

    /// The error for a code returned by the C API.
    pub fn from_code(c: cty::c_int) -> (e: MynewtError)
        ensures
            e == error_of_code(c as int),
    {
        if c == 0 {
            MynewtError::SYS_EOK
        } else if c == -1 {
            MynewtError::SYS_ENOMEM
        } else if c == -2 {
            MynewtError::SYS_EINVAL
        } else if c == -3 {
            MynewtError::SYS_ETIMEOUT
        } else if c == -4 {
            MynewtError::SYS_ENOENT
        } else if c == -5 {
            MynewtError::SYS_EIO
        } else if c == -6 {
            MynewtError::SYS_EAGAIN
        } else if c == -7 {
            MynewtError::SYS_EACCES
        } else if c == -8 {
            MynewtError::SYS_EBUSY
        } else if c == -9 {
            MynewtError::SYS_ENODEV
        } else if c == -10 {
            MynewtError::SYS_ERANGE
        } else if c == -11 {
            MynewtError::SYS_EALREADY
        } else if c == -12 {
            MynewtError::SYS_ENOTSUP
        } else if c == -14 {
            MynewtError::SYS_EREMOTEIO
        } else if c == -15 {
            MynewtError::SYS_EDONE
        } else if c == -65535 {
            MynewtError::SYS_EPERUSER
        } else {
            MynewtError::SYS_EUNKNOWN
        }
    }
}

/// Turning an error into its code and back gives the same error.
pub proof fn law_error_code_roundtrip(e: MynewtError)
    ensures
        error_of_code(error_code(e)) == e,
        is_known_code(error_code(e)),
{
}

/// Every code that the C API defines is the code of the error it stands for.
pub proof fn law_known_code_roundtrip(c: int)
    requires
        is_known_code(c),
    ensures
        error_code(error_of_code(c)) == c,
{
}

/// A code that the C API does not define stands for `SYS_EUNKNOWN`.
pub proof fn law_unknown_code(c: int)
    requires
        !is_known_code(c),
    ensures
        error_of_code(c) == MynewtError::SYS_EUNKNOWN,
{
}

/// The code of each error, as Mynewt's `sys/defs/error.h` defines it.
pub proof fn law_error_code_table()
    ensures
        error_code(MynewtError::SYS_EOK) == 0,
        error_code(MynewtError::SYS_ENOMEM) == -1,
        error_code(MynewtError::SYS_EINVAL) == -2,
        error_code(MynewtError::SYS_ETIMEOUT) == -3,
        error_code(MynewtError::SYS_ENOENT) == -4,
        error_code(MynewtError::SYS_EIO) == -5,
        error_code(MynewtError::SYS_EAGAIN) == -6,
        error_code(MynewtError::SYS_EACCES) == -7,
        error_code(MynewtError::SYS_EBUSY) == -8,
        error_code(MynewtError::SYS_ENODEV) == -9,
        error_code(MynewtError::SYS_ERANGE) == -10,
        error_code(MynewtError::SYS_EALREADY) == -11,
        error_code(MynewtError::SYS_ENOTSUP) == -12,
        error_code(MynewtError::SYS_EUNKNOWN) == -13,
        error_code(MynewtError::SYS_EREMOTEIO) == -14,
        error_code(MynewtError::SYS_EDONE) == -15,
        error_code(MynewtError::SYS_EPERUSER) == -65535,
{
}

/// The error that each code of Mynewt's `sys/defs/error.h` stands for.
pub proof fn law_code_error_table()
    ensures
        error_of_code(0) == MynewtError::SYS_EOK,
        error_of_code(-1) == MynewtError::SYS_ENOMEM,
        error_of_code(-2) == MynewtError::SYS_EINVAL,
        error_of_code(-3) == MynewtError::SYS_ETIMEOUT,
        error_of_code(-4) == MynewtError::SYS_ENOENT,
        error_of_code(-5) == MynewtError::SYS_EIO,
        error_of_code(-6) == MynewtError::SYS_EAGAIN,
        error_of_code(-7) == MynewtError::SYS_EACCES,
        error_of_code(-8) == MynewtError::SYS_EBUSY,
        error_of_code(-9) == MynewtError::SYS_ENODEV,
        error_of_code(-10) == MynewtError::SYS_ERANGE,
        error_of_code(-11) == MynewtError::SYS_EALREADY,
        error_of_code(-12) == MynewtError::SYS_ENOTSUP,
        error_of_code(-13) == MynewtError::SYS_EUNKNOWN,
        error_of_code(-14) == MynewtError::SYS_EREMOTEIO,
        error_of_code(-15) == MynewtError::SYS_EDONE,
        error_of_code(-65535) == MynewtError::SYS_EPERUSER,
{
}

} // verus!
