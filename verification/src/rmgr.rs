use vstd::prelude::*;

use crate::errors::DecodeError;

verus! {

/// The resource-manager id that marks heap records: the only record kind
/// whose block references this decoder understands.
pub const HEAP_RMGR_ID: u8 = 10;

/// Largest id in the closed resource-manager registry.
pub const MAX_RMGR_ID: u8 = 21;

/// A one-byte resource-manager id as it appears on the wire.
#[derive(Debug, Clone, Copy, PartialEq, Eq, Structural)]
pub struct RmgrId(pub u8);

/// The closed set of resource managers a record can belong to: the
/// subsystem owning the record's semantics.
#[derive(Debug, Clone, Copy, PartialEq, Eq, Structural)]
pub enum ResourceManager {
    XLOG,
    Transaction,
    Storage,
    CLOG,
    Database,
    Tablespace,
    MultiXact,
    RelMap,
    Standby,
    Heap2,
    Heap,
    Btree,
    Hash,
    Gin,
    Gist,
    Sequence,
    SPGist,
    BRIN,
    CommitTs,
    ReplicationOrigin,
    Generic,
    LogicalMessage,
}

/// The resource manager registered under an id, or `None` for an id
/// outside the closed registry.
pub open spec fn rmgr_of_id(id: u8) -> Option<ResourceManager> {
    if id == 0 {
        Some(ResourceManager::XLOG)
    } else if id == 1 {
        Some(ResourceManager::Transaction)
    } else if id == 2 {
        Some(ResourceManager::Storage)
    } else if id == 3 {
        Some(ResourceManager::CLOG)
    } else if id == 4 {
        Some(ResourceManager::Database)
    } else if id == 5 {
        Some(ResourceManager::Tablespace)
    } else if id == 6 {
        Some(ResourceManager::MultiXact)
    } else if id == 7 {
        Some(ResourceManager::RelMap)
    } else if id == 8 {
        Some(ResourceManager::Standby)
    } else if id == 9 {
        Some(ResourceManager::Heap2)
    } else if id == 10 {
        Some(ResourceManager::Heap)
    } else if id == 11 {
        Some(ResourceManager::Btree)
    } else if id == 12 {
        Some(ResourceManager::Hash)
    } else if id == 13 {
        Some(ResourceManager::Gin)
    } else if id == 14 {
        Some(ResourceManager::Gist)
    } else if id == 15 {
        Some(ResourceManager::Sequence)
    } else if id == 16 {
        Some(ResourceManager::SPGist)
    } else if id == 17 {
        Some(ResourceManager::BRIN)
    } else if id == 18 {
        Some(ResourceManager::CommitTs)
    } else if id == 19 {
        Some(ResourceManager::ReplicationOrigin)
    } else if id == 20 {
        Some(ResourceManager::Generic)
    } else if id == 21 {
        Some(ResourceManager::LogicalMessage)
    } else {
        None
    }
}

/// The registered name of a resource manager.
pub open spec fn rmgr_name(rm: ResourceManager) -> Seq<char> {
    match rm {
        ResourceManager::XLOG => "XLOG"@,
        ResourceManager::Transaction => "Transaction"@,
        ResourceManager::Storage => "Storage"@,
        ResourceManager::CLOG => "CLOG"@,
        ResourceManager::Database => "Database"@,
        ResourceManager::Tablespace => "Tablespace"@,
        ResourceManager::MultiXact => "MultiXact"@,
        ResourceManager::RelMap => "RelMap"@,
        ResourceManager::Standby => "Standby"@,
        ResourceManager::Heap2 => "Heap2"@,
        ResourceManager::Heap => "Heap"@,
        ResourceManager::Btree => "Btree"@,
        ResourceManager::Hash => "Hash"@,
        ResourceManager::Gin => "Gin"@,
        ResourceManager::Gist => "Gist"@,
        ResourceManager::Sequence => "Sequence"@,
        ResourceManager::SPGist => "SPGist"@,
        ResourceManager::BRIN => "BRIN"@,
        ResourceManager::CommitTs => "CommitTs"@,
        ResourceManager::ReplicationOrigin => "ReplicationOrigin"@,
        ResourceManager::Generic => "Generic"@,
        ResourceManager::LogicalMessage => "LogicalMessage"@,
    }
}

impl ResourceManager {
    /// Look an id up in the closed registry.  An id outside it is an
    /// `UnknownResourceManager` error, never a panic.
    pub fn try_from(value: RmgrId) -> (r: Result<ResourceManager, DecodeError>)
        ensures
            rmgr_of_id(value.0) is Some ==> r == Ok::<ResourceManager, DecodeError>(
                rmgr_of_id(value.0)->Some_0,
            ),
            rmgr_of_id(value.0) is None ==> r == Err::<ResourceManager, DecodeError>(
                DecodeError::UnknownResourceManager(value.0),
            ),
    {
        match value.0 {
            0 => Ok(ResourceManager::XLOG),
            1 => Ok(ResourceManager::Transaction),
            2 => Ok(ResourceManager::Storage),
            3 => Ok(ResourceManager::CLOG),
            4 => Ok(ResourceManager::Database),
            5 => Ok(ResourceManager::Tablespace),
            6 => Ok(ResourceManager::MultiXact),
            7 => Ok(ResourceManager::RelMap),
            8 => Ok(ResourceManager::Standby),
            9 => Ok(ResourceManager::Heap2),
            10 => Ok(ResourceManager::Heap),
            11 => Ok(ResourceManager::Btree),
            12 => Ok(ResourceManager::Hash),
            13 => Ok(ResourceManager::Gin),
            14 => Ok(ResourceManager::Gist),
            15 => Ok(ResourceManager::Sequence),
            16 => Ok(ResourceManager::SPGist),
            17 => Ok(ResourceManager::BRIN),
            18 => Ok(ResourceManager::CommitTs),
            19 => Ok(ResourceManager::ReplicationOrigin),
            20 => Ok(ResourceManager::Generic),
            21 => Ok(ResourceManager::LogicalMessage),
            id => Err(DecodeError::UnknownResourceManager(id)),
        }
    }

    /// The registered name of this resource manager.
    pub fn name(&self) -> (r: String)
        ensures
            r@ == rmgr_name(*self),
    {
        match self {
            ResourceManager::XLOG => String::from_str("XLOG"),
            ResourceManager::Transaction => String::from_str("Transaction"),
            ResourceManager::Storage => String::from_str("Storage"),
            ResourceManager::CLOG => String::from_str("CLOG"),
            ResourceManager::Database => String::from_str("Database"),
            ResourceManager::Tablespace => String::from_str("Tablespace"),
            ResourceManager::MultiXact => String::from_str("MultiXact"),
            ResourceManager::RelMap => String::from_str("RelMap"),
            ResourceManager::Standby => String::from_str("Standby"),
            ResourceManager::Heap2 => String::from_str("Heap2"),
            ResourceManager::Heap => String::from_str("Heap"),
            ResourceManager::Btree => String::from_str("Btree"),
            ResourceManager::Hash => String::from_str("Hash"),
            ResourceManager::Gin => String::from_str("Gin"),
            ResourceManager::Gist => String::from_str("Gist"),
            ResourceManager::Sequence => String::from_str("Sequence"),
            ResourceManager::SPGist => String::from_str("SPGist"),
            ResourceManager::BRIN => String::from_str("BRIN"),
            ResourceManager::CommitTs => String::from_str("CommitTs"),
            ResourceManager::ReplicationOrigin => String::from_str("ReplicationOrigin"),
            ResourceManager::Generic => String::from_str("Generic"),
            ResourceManager::LogicalMessage => String::from_str("LogicalMessage"),
        }
    }

    /// Record-type naming per manager is not implemented yet; every
    /// sub-type reads back as `NYI`.
    pub fn get_record_type(&self, rmgr_info: u8) -> (r: String)
        ensures
            r@ == "NYI"@,
    {
        let _ = rmgr_info;
        String::from_str("NYI")
    }

    /// Whether this manager is the heap manager.
    pub fn is_heap(&self) -> (r: bool)
        ensures
            r == (*self == ResourceManager::Heap),
    {
        match self {
            ResourceManager::Heap => true,
            _ => false,
        }
    }
}

/// Whether an id is registered to the heap resource manager: the sole
/// gate controlling whether block references are decoded.
pub fn is_heap(id: RmgrId) -> (r: bool)
    ensures
        r == (id.0 == HEAP_RMGR_ID),
{
    id.0 == HEAP_RMGR_ID
}

/// A resource manager's registered name together with the (not yet
/// implemented) name of the record sub-type.
pub struct SimpleRmgrInfo {
    pub rmgr_name: String,
    pub record_type: String,
}

/// Names for a record's resource manager and sub-type.  The id must be in
/// the closed registry; `ResourceManager::try_from` reports an unknown id
/// as a value.
pub fn get_simple_rmgr_info(rmgr_id: RmgrId, rmgr_info: u8) -> (r: SimpleRmgrInfo)
    requires
        rmgr_of_id(rmgr_id.0) is Some,
    ensures
        r.rmgr_name@ == rmgr_name(rmgr_of_id(rmgr_id.0)->Some_0),
        r.record_type@ == "NYI"@,
{
    let resource_manager = match ResourceManager::try_from(rmgr_id) {
        Ok(rm) => rm,
        Err(_) => unreached(),
    };
    let record_type = resource_manager.get_record_type(rmgr_info);
    SimpleRmgrInfo { rmgr_name: resource_manager.name(), record_type }
}

} // verus!
