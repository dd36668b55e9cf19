//! Boot components shared by all instances: kernel, initrd and firmware
//! image under one directory. Discovering the directory and testing for the
//! files is the caller's (filesystem) work; this module fixes the layout and
//! the rule that all three must be present.

use vstd::prelude::*;
use crate::error::{ErrorView, HypervisorError};
use crate::strutil::path_join;

verus! {

/// Paths of the boot components used by every instance.
#[derive(Debug)]
pub struct BootComponents {
    pub kernel_path: String,
    pub initrd_path: String,
    pub ovmf_path: String,
}

/// Mathematical model of the boot components.
pub ghost struct BootView {
    pub kernel_path: Seq<char>,
    pub initrd_path: Seq<char>,
    pub ovmf_path: Seq<char>,
}

impl View for BootComponents {
    type V = BootView;

    open spec fn view(&self) -> BootView {
        BootView {
            kernel_path: self.kernel_path@,
            initrd_path: self.initrd_path@,
            ovmf_path: self.ovmf_path@,
        }
    }
}

impl BootComponents {
    /// Resolve the component paths under the given directory, given which of
    /// the three files the caller found on disk. All three must exist.
    pub fn load(boot_dir: &str, kernel_found: bool, initrd_found: bool, ovmf_found: bool) -> (r:
        Result<Self, HypervisorError>)
        ensures
            r is Ok <==> kernel_found && initrd_found && ovmf_found,
            r matches Ok(b) ==> b@.kernel_path == boot_dir@ + "/vmlinuz"@ && b@.initrd_path
                == boot_dir@ + "/initrd.img"@ && b@.ovmf_path == boot_dir@ + "/ovmf.fd"@,
            r matches Err(e) ==> e@ matches ErrorView::Internal(_),
    {
        proof {
            reveal_strlit("/");
            reveal_strlit("vmlinuz");
            reveal_strlit("/vmlinuz");
            reveal_strlit("initrd.img");
            reveal_strlit("/initrd.img");
            reveal_strlit("ovmf.fd");
            reveal_strlit("/ovmf.fd");
            reveal_strlit("Kernel not found at: ");
            reveal_strlit("Initrd not found at: ");
            reveal_strlit("OVMF not found at: ");
        }
        let kernel_path = path_join(boot_dir, "vmlinuz");
        let initrd_path = path_join(boot_dir, "initrd.img");
        let ovmf_path = path_join(boot_dir, "ovmf.fd");
        if !kernel_found {
            let mut m = String::from_str("Kernel not found at: ");
            m.append(kernel_path.as_str());
            return Err(HypervisorError::Internal(m));
        }
        if !initrd_found {
            let mut m = String::from_str("Initrd not found at: ");
            m.append(initrd_path.as_str());
            return Err(HypervisorError::Internal(m));
        }
        if !ovmf_found {
            let mut m = String::from_str("OVMF not found at: ");
            m.append(ovmf_path.as_str());
            return Err(HypervisorError::Internal(m));
        }
        let r = BootComponents { kernel_path, initrd_path, ovmf_path };
        proof {
            assert(r@.kernel_path =~= boot_dir@ + "/vmlinuz"@);
            assert(r@.initrd_path =~= boot_dir@ + "/initrd.img"@);
            assert(r@.ovmf_path =~= boot_dir@ + "/ovmf.fd"@);
        }
        Ok(r)
    }
}

} // verus!
