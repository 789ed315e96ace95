use vstd::prelude::*;

use crate::guid::UnityInterfaceGuid;

verus! {

/// The failure of building a registry: the host handed over a null handle.
#[derive(Clone, Copy, Debug, PartialEq, Eq, Structural)]
pub enum UnityInterfaceCreateErr {
    NullPtr,
}

/// The failure of resolving a capability.
#[derive(Debug)]
pub enum GetError<T> {
    /// The host had no table for the identifier, or no lookup function at all.
    NullPtr,
    /// The host returned a table, but the facade could not be built over it.
    ConversionError(T),
}

/// A typed facade over one host capability table.
///
/// Each implementor fixes the identifier under which the host publishes its
/// table, and says which tables it accepts. The registry resolves any
/// implementor the same way, so a new capability needs no change there.
pub trait UnityInterface: Sized {
    /// What construction reads from the table before the facade exists.
    type Probe;

    /// The reason a table was refused.
    type FFIConversionError;

    /// The identifier under which the host publishes this capability.
    spec fn spec_guid() -> UnityInterfaceGuid;

    /// Whether a non-null table whose probe gave `probe` is accepted.
    spec fn spec_accepts(probe: Self::Probe) -> bool;

    /// The address of the table this facade stands in front of.
    spec fn spec_table(&self) -> usize;

    /// The identifier under which the host publishes this capability.
    fn guid() -> (g: UnityInterfaceGuid)
        ensures
            g == Self::spec_guid(),
    ;

    /// Builds the facade over the non-null table at `table`.
    fn try_from_table(table: usize, probe: Self::Probe) -> (r: Result<Self, Self::FFIConversionError>)
        requires
            table != 0,
        ensures
            r is Ok <==> Self::spec_accepts(probe),
            r matches Ok(f) ==> f.spec_table() == table,
    ;
}

/// The registry of host capabilities: the host's root handle, never null.
#[derive(Debug)]
pub struct UnityInterfaces {
    handle: usize,
}

impl UnityInterfaces {
    /// The root handle this registry was built from.
    pub closed spec fn spec_handle(&self) -> usize {
        self.handle
    }

    /// The registry is well formed: its handle is not null.
    pub closed spec fn wf(&self) -> bool {
        self.handle != 0
    }

    /// Wraps the host's root handle; fails exactly when it is null.
    pub fn new(handle: usize) -> (r: Result<UnityInterfaces, UnityInterfaceCreateErr>)
        ensures
            r is Ok <==> handle != 0,
            r matches Ok(reg) ==> reg.wf() && reg.spec_handle() == handle,
            r matches Err(e) ==> e == UnityInterfaceCreateErr::NullPtr,
    {
        if handle == 0 {
            Err(UnityInterfaceCreateErr::NullPtr)
        } else {
            Ok(UnityInterfaces { handle })
        }
    }

    /// The root handle, for the calls into the host's lookup function.
    pub fn handle(&self) -> (h: usize)
        ensures
            h == self.spec_handle(),
    {
        self.handle
    }

    /// Resolves capability `T` from the host's answer to a lookup of `T::guid()`.
    ///
    /// `found` is `None` when the root table has no lookup function, and
    /// otherwise the address the lookup returned. `probe` is what was read
    /// from the table at that address; it is not consulted when the address
    /// is null.
    pub fn get<T: UnityInterface>(&self, found: Option<usize>, probe: T::Probe) -> (r: Result<
        T,
        GetError<T::FFIConversionError>,
    >)
        ensures
            r matches Err(GetError::NullPtr) <==> (found is None || found == Some(0usize)),
            r is Ok <==> (found matches Some(p) && p != 0 && T::spec_accepts(probe)),
            r matches Ok(f) ==> found == Some(f.spec_table()),
    {
        match found {
            None => Err(GetError::NullPtr),
            Some(table) => {
                if table == 0 {
                    Err(GetError::NullPtr)
                } else {
                    match T::try_from_table(table, probe) {
                        Ok(f) => Ok(f),
                        Err(e) => Err(GetError::ConversionError(e)),
                    }
                }
            },
        }
    }
}

} // verus!
