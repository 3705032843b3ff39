//! The opcodes this server understands and the statuses a client reports.
use vstd::prelude::*;

verus! {

/// A client's presence.
#[derive(Debug, Clone, Copy, PartialEq, Eq, Structural)]
pub enum UserStatus {
    Offline,
    Away,
    Online,
}

/// The wire value of a status.
pub open spec fn status_code(s: UserStatus) -> i32 {
    match s {
        UserStatus::Offline => 0,
        UserStatus::Away => 1,
        UserStatus::Online => 2,
    }
}

/// The status with wire value `v`, if any.
pub open spec fn status_from(v: i32) -> Option<UserStatus> {
    if v == 0 {
        Some(UserStatus::Offline)
    } else if v == 1 {
        Some(UserStatus::Away)
    } else if v == 2 {
        Some(UserStatus::Online)
    } else {
        None
    }
}

impl UserStatus {
    pub fn try_from_i32(value: i32) -> (r: Option<UserStatus>)
        ensures
            r == status_from(value),
    {
        match value {
            0 => Some(UserStatus::Offline),
            1 => Some(UserStatus::Away),
            2 => Some(UserStatus::Online),
            _ => None,
        }
    }

    pub fn code(&self) -> (r: i32)
        ensures
            r == status_code(*self),
    {
        match self {
            UserStatus::Offline => 0,
            UserStatus::Away => 1,
            UserStatus::Online => 2,
        }
    }
}

/// The requests a client may send.
#[derive(Debug, Clone, Copy, PartialEq, Eq, Structural)]
pub enum ServerMessage {
    Login,
    SetWaitPort,
    GetUserStatus,
    SetStatus,
    SharedFoldersFiles,
    RoomList,
    HaveNoParent,
    CheckPrivileges,
    AcceptChildren,
    BranchLevel,
    BranchRoot,
    PrivateRoomToggle,
}

/// The opcode of each request.
pub open spec fn opcode(m: ServerMessage) -> u32 {
    match m {
        ServerMessage::Login => 1,
        ServerMessage::SetWaitPort => 2,
        ServerMessage::GetUserStatus => 7,
        ServerMessage::SetStatus => 28,
        ServerMessage::SharedFoldersFiles => 35,
        ServerMessage::RoomList => 64,
        ServerMessage::HaveNoParent => 71,
        ServerMessage::CheckPrivileges => 92,
        ServerMessage::AcceptChildren => 100,
        ServerMessage::BranchLevel => 126,
        ServerMessage::BranchRoot => 127,
        ServerMessage::PrivateRoomToggle => 141,
    }
}

/// The request with opcode `code`, if this server knows it.
pub open spec fn message_of(code: u32) -> Option<ServerMessage> {
    if code == 1 {
        Some(ServerMessage::Login)
    } else if code == 2 {
        Some(ServerMessage::SetWaitPort)
    } else if code == 7 {
        Some(ServerMessage::GetUserStatus)
    } else if code == 28 {
        Some(ServerMessage::SetStatus)
    } else if code == 35 {
        Some(ServerMessage::SharedFoldersFiles)
    } else if code == 64 {
        Some(ServerMessage::RoomList)
    } else if code == 71 {
        Some(ServerMessage::HaveNoParent)
    } else if code == 92 {
        Some(ServerMessage::CheckPrivileges)
    } else if code == 100 {
        Some(ServerMessage::AcceptChildren)
    } else if code == 126 {
        Some(ServerMessage::BranchLevel)
    } else if code == 127 {
        Some(ServerMessage::BranchRoot)
    } else if code == 141 {
        Some(ServerMessage::PrivateRoomToggle)
    } else {
        None
    }
}

impl ServerMessage {
    /// The request with opcode `code`, or `None` for an opcode this server does not know.
    pub fn from_code(code: u32) -> (r: Option<ServerMessage>)
        ensures
            r == message_of(code),
    {
        let r = match code {
            1 => Some(ServerMessage::Login),
            2 => Some(ServerMessage::SetWaitPort),
            7 => Some(ServerMessage::GetUserStatus),
            28 => Some(ServerMessage::SetStatus),
            35 => Some(ServerMessage::SharedFoldersFiles),
            64 => Some(ServerMessage::RoomList),
            71 => Some(ServerMessage::HaveNoParent),
            92 => Some(ServerMessage::CheckPrivileges),
            100 => Some(ServerMessage::AcceptChildren),
            126 => Some(ServerMessage::BranchLevel),
            127 => Some(ServerMessage::BranchRoot),
            141 => Some(ServerMessage::PrivateRoomToggle),
            _ => None,
        };
        r
    }

    /// The opcode of this request.
    pub fn code(&self) -> (r: u32)
        ensures
            r == opcode(*self),
    {
        match self {
            ServerMessage::Login => 1,
            ServerMessage::SetWaitPort => 2,
            ServerMessage::GetUserStatus => 7,
            ServerMessage::SetStatus => 28,
            ServerMessage::SharedFoldersFiles => 35,
            ServerMessage::RoomList => 64,
            ServerMessage::HaveNoParent => 71,
            ServerMessage::CheckPrivileges => 92,
            ServerMessage::AcceptChildren => 100,
            ServerMessage::BranchLevel => 126,
            ServerMessage::BranchRoot => 127,
            ServerMessage::PrivateRoomToggle => 141,
        }
    }
}

} // verus!
