//! Layout and budget rules for per-instance storage. The filesystem work
//! itself (creating directories, disk images) happens outside the library;
//! this module fixes where every artifact lives and when a quota is breached.

use vstd::prelude::*;
use crate::decimal::{dec_rep, u64_to_string};
use crate::error::{ErrorView, HypervisorError};
use crate::strutil::path_join;

verus! {

/// The smallest disk image the storage layer will provision: 50 MiB.
pub const MIN_STORAGE_SIZE: u64 = 50 * 1024 * 1024;

/// Paths of one instance's runtime artifacts, all under its directory.
#[derive(Debug)]
pub struct InstancePaths {
    pub instance_dir: String,
    pub data_dir: String,
    pub disk_image: String,
    pub serial_log: String,
    pub qmp_socket: String,
    pub pid_file: String,
}

/// Decides storage layout under a base directory.
#[derive(Debug)]
pub struct StorageManager {
    base_dir: String,
}

impl View for StorageManager {
    type V = Seq<char>;

    closed spec fn view(&self) -> Seq<char> {
        self.base_dir@
    }
}

/// The directory of an instance: `<base>/<id>`.
pub open spec fn instance_dir_spec(base: Seq<char>, id: Seq<char>) -> Seq<char> {
    base + "/"@ + id
}

impl StorageManager {
    /// A manager rooted at the given base directory.
    pub fn new(base_dir: String) -> (r: Self)
        ensures
            r@ == base_dir@,
    {
        StorageManager { base_dir }
    }

    /// The directory holding one instance's artifacts.
    pub fn get_instance_dir(&self, instance_id: &str) -> (r: String)
        ensures
            r@ == instance_dir_spec(self@, instance_id@),
    {
        path_join(self.base_dir.as_str(), instance_id)
    }

    /// The file and socket paths of one instance's artifacts.
    pub fn get_paths(&self, instance_id: &str) -> (r: InstancePaths)
        ensures
            r.instance_dir@ == instance_dir_spec(self@, instance_id@),
            r.data_dir@ == instance_dir_spec(self@, instance_id@) + "/data"@,
            r.disk_image@ == instance_dir_spec(self@, instance_id@) + "/katana-data.qcow2"@,
            r.serial_log@ == instance_dir_spec(self@, instance_id@) + "/serial.log"@,
            r.qmp_socket@ == instance_dir_spec(self@, instance_id@) + "/qmp.sock"@,
            r.pid_file@ == instance_dir_spec(self@, instance_id@) + "/qemu.pid"@,
    {
        let instance_dir = self.get_instance_dir(instance_id);
        let r = InstancePaths {
            data_dir: path_join(instance_dir.as_str(), "data"),
            disk_image: path_join(instance_dir.as_str(), "katana-data.qcow2"),
            serial_log: path_join(instance_dir.as_str(), "serial.log"),
            qmp_socket: path_join(instance_dir.as_str(), "qmp.sock"),
            pid_file: path_join(instance_dir.as_str(), "qemu.pid"),
            instance_dir,
        };
        proof {
            reveal_strlit("/");
            reveal_strlit("data");
            reveal_strlit("/data");
            reveal_strlit("katana-data.qcow2");
            reveal_strlit("/katana-data.qcow2");
            reveal_strlit("serial.log");
            reveal_strlit("/serial.log");
            reveal_strlit("qmp.sock");
            reveal_strlit("/qmp.sock");
            reveal_strlit("qemu.pid");
            reveal_strlit("/qemu.pid");
            assert(r.data_dir@ =~= instance_dir_spec(self@, instance_id@) + "/data"@);
            assert(r.disk_image@ =~= instance_dir_spec(self@, instance_id@)
                + "/katana-data.qcow2"@);
            assert(r.serial_log@ =~= instance_dir_spec(self@, instance_id@) + "/serial.log"@);
            assert(r.qmp_socket@ =~= instance_dir_spec(self@, instance_id@) + "/qmp.sock"@);
            assert(r.pid_file@ =~= instance_dir_spec(self@, instance_id@) + "/qemu.pid"@);
        }
        r
    }

    /// A storage request must meet the minimum image size.
    pub fn validate_storage_size(&self, quota_bytes: u64) -> (r: Result<(), HypervisorError>)
        ensures
            r is Ok <==> quota_bytes >= MIN_STORAGE_SIZE,
            r matches Err(e) ==> e@ matches ErrorView::BadRequest(_),
    {
        if quota_bytes < MIN_STORAGE_SIZE {
            let mut m = String::from_str("Storage size must be at least 50 MB (requested: ");
            m.append(u64_to_string(quota_bytes).as_str());
            m.append(" bytes)");
            return Err(HypervisorError::BadRequest(m));
        }
        Ok(())
    }

    /// A usage at or under the quota passes; anything over it is a typed
    /// storage error naming both numbers.
    pub fn check_quota(&self, usage_bytes: u64, quota_bytes: u64) -> (r: Result<
        (),
        HypervisorError,
    >)
        ensures
            r is Ok <==> usage_bytes <= quota_bytes,
            r matches Err(e) ==> e@ == ErrorView::StorageError(
                "Storage quota exceeded: "@ + dec_rep(usage_bytes as int) + "/"@ + dec_rep(
                    quota_bytes as int,
                ) + " bytes"@,
            ),
    {
        if usage_bytes > quota_bytes {
            proof {
                reveal_strlit("Storage quota exceeded: ");
                reveal_strlit("/");
                reveal_strlit(" bytes");
            }
            let mut m = String::from_str("Storage quota exceeded: ");
            m.append(u64_to_string(usage_bytes).as_str());
            m.append("/");
            m.append(u64_to_string(quota_bytes).as_str());
            m.append(" bytes");
            return Err(HypervisorError::StorageError(m));
        }
        Ok(())
    }
}

} // verus!
