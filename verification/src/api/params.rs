//! Initialization parameters of the drivers.
use vstd::prelude::*;

verus! {

/// Xen initialization parameters. The Xen driver takes none of its own:
/// no value of this type can be built outside the library, so the field
/// that holds it is always `None`.
#[derive(Debug, Clone, PartialEq)]
pub struct XenInitParams {
    #[allow(dead_code)]
    sealed: bool,
}

/// KVM initialization parameters.
#[derive(Debug, Clone, PartialEq)]
pub enum KVMInitParams {
    UnixSocket { path: String },
}

/// Memflow connector parameters: arguments of the form `key=value`
/// handed to the connector.
#[derive(Debug, Clone, PartialEq)]
pub enum MemflowConnectorParams {
    Default { args: Vec<String> },
}

/// Memflow initialization parameters.
#[derive(Debug, Clone, PartialEq)]
pub struct MemflowInitParams {
    /// Connector name.
    pub connector_name: String,
    /// Optional connector initialization parameters.
    pub connector_args: Option<MemflowConnectorParams>,
}

/// VirtualBox initialization parameters. The VirtualBox driver takes none of
/// its own: no value of this type can be built outside the library, so the
/// field that holds it is always `None`.
#[derive(Debug, Clone, PartialEq)]
pub struct VBoxInitParams {
    #[allow(dead_code)]
    sealed: bool,
}

/// Parameters shared by two or more drivers.
#[derive(Debug, Clone, PartialEq)]
pub struct CommonInitParams {
    pub vm_name: String,
}

/// Initialization parameters for all drivers.
#[derive(Debug, Clone, PartialEq)]
pub struct DriverInitParams {
    pub common: Option<CommonInitParams>,
    pub xen: Option<XenInitParams>,
    pub kvm: Option<KVMInitParams>,
    pub memflow: Option<MemflowInitParams>,
    pub virtualbox: Option<VBoxInitParams>,
}

impl DriverInitParams {
    /// Parameters with every part absent.
    pub open spec fn none() -> DriverInitParams {
        DriverInitParams { common: None, xen: None, kvm: None, memflow: None, virtualbox: None }
    }
}

impl DriverInitParams {
    /// Parameters made of optional parts: the VM name, the KVM unix socket
    /// path, and the Memflow connector name with its optional arguments.
    /// The connector arguments are used only when a connector name is given.
    pub fn from_parts(
        vm_name: Option<String>,
        kvm_unix_socket: Option<String>,
        memflow_connector_name: Option<String>,
        memflow_connector_args: Option<Vec<String>>,
    ) -> (r: DriverInitParams)
        ensures
            r == (DriverInitParams {
                common: match vm_name {
                    Some(v) => Some(CommonInitParams { vm_name: v }),
                    None => None,
                },
                xen: None,
                kvm: match kvm_unix_socket {
                    Some(p) => Some(KVMInitParams::UnixSocket { path: p }),
                    None => None,
                },
                memflow: match memflow_connector_name {
                    Some(n) => Some(MemflowInitParams {
                        connector_name: n,
                        connector_args: match memflow_connector_args {
                            Some(args) => Some(MemflowConnectorParams::Default { args }),
                            None => None,
                        },
                    }),
                    None => None,
                },
                virtualbox: None,
            }),
    {
        let common = match vm_name {
            Some(v) => Some(CommonInitParams { vm_name: v }),
            None => None,
        };
        let kvm = match kvm_unix_socket {
            Some(p) => Some(KVMInitParams::UnixSocket { path: p }),
            None => None,
        };
        let memflow = match memflow_connector_name {
            Some(n) => Some(MemflowInitParams {
                connector_name: n,
                connector_args: match memflow_connector_args {
                    Some(args) => Some(MemflowConnectorParams::Default { args }),
                    None => None,
                },
            }),
            None => None,
        };
        DriverInitParams { common, xen: None, kvm, memflow, virtualbox: None }
    }
}

impl Default for DriverInitParams {
    fn default() -> (r: DriverInitParams)
        ensures
            r == DriverInitParams::none(),
    {
        DriverInitParams { common: None, xen: None, kvm: None, memflow: None, virtualbox: None }
    }
}

} // verus!
