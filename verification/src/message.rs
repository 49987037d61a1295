//! Wire vocabulary: the four message variants and the two report shapes.
//!
//! Textual fields are byte strings, exactly as they travel on the wire; the
//! boundary that performs network transport converts them to and from host
//! strings.  CPU utilization is carried in hundredths of a percent so that
//! the bound `0.0..=100.0` becomes the integer bound `0..=10_000`.

use vstd::prelude::*;

verus! {

/// Length in bytes of a device identifier (the raw bytes of a UUID).
pub const ID_LEN: usize = 16;

/// Upper bound of the CPU utilization field: 100 percent, in hundredths.
pub const CPU_UTILIZATION_MAX: u64 = 10000;

/// Initial-connect report: immutable host facts, emitted once per session.
#[derive(Debug)]
pub struct CattleInitialConnect {
    /// Host name of the system.
    pub name: Vec<u8>,

    /// Unchanging ID of the system: the 16 raw bytes of its UUID.
    pub id: Vec<u8>,

    /// Operating system name.
    pub os_name: Vec<u8>,

    /// Operating system version.
    pub os_version: Vec<u8>,

    /// More detailed operating system version.
    pub os_version_long: Vec<u8>,

    /// Total RAM in bytes.
    pub ram_bytes: u64,

    /// Total disk capacity in bytes, summed over all mounted disks.
    pub disk_bytes: u64,

    /// Number of logical processors.
    pub cpu_count: u64,

    /// CPU brand string.
    pub cpu_brand: Vec<u8>,

    /// Name of the CPU.
    pub cpu_name: Vec<u8>,

    /// OS-reported system uptime, in whole seconds.
    pub uptime_seconds: u64,
}

/// Mathematical value of a [`CattleInitialConnect`].
#[verifier::ext_equal]
pub struct InitialConnectView {
    pub name: Seq<u8>,
    pub id: Seq<u8>,
    pub os_name: Seq<u8>,
    pub os_version: Seq<u8>,
    pub os_version_long: Seq<u8>,
    pub ram_bytes: u64,
    pub disk_bytes: u64,
    pub cpu_count: u64,
    pub cpu_brand: Seq<u8>,
    pub cpu_name: Seq<u8>,
    pub uptime_seconds: u64,
}

impl View for CattleInitialConnect {
    type V = InitialConnectView;

    open spec fn view(&self) -> InitialConnectView {
        InitialConnectView {
            name: self.name@,
            id: self.id@,
            os_name: self.os_name@,
            os_version: self.os_version@,
            os_version_long: self.os_version_long@,
            ram_bytes: self.ram_bytes,
            disk_bytes: self.disk_bytes,
            cpu_count: self.cpu_count,
            cpu_brand: self.cpu_brand@,
            cpu_name: self.cpu_name@,
            uptime_seconds: self.uptime_seconds,
        }
    }
}

/// Periodic-update report: fresh metrics, emitted on each interval tick.
#[derive(Debug)]
pub struct CattleUpdate {
    /// CPU utilization in hundredths of a percent, at most 10 000.
    pub cpu_utilization: u64,

    /// Unused RAM in bytes.
    pub available_memory_bytes: u64,

    /// Unused disk space in bytes.
    pub available_disk_bytes: u64,

    /// Number of processes running.
    pub running_processes: u64,

    /// Name of the process using the most CPU.
    pub most_intense_process_name: Vec<u8>,

    /// Username of the owner of that process.
    pub most_intense_process_owner: Vec<u8>,
}

/// Mathematical value of a [`CattleUpdate`].
#[verifier::ext_equal]
pub struct UpdateView {
    pub cpu_utilization: u64,
    pub available_memory_bytes: u64,
    pub available_disk_bytes: u64,
    pub running_processes: u64,
    pub most_intense_process_name: Seq<u8>,
    pub most_intense_process_owner: Seq<u8>,
}

impl View for CattleUpdate {
    type V = UpdateView;

    open spec fn view(&self) -> UpdateView {
        UpdateView {
            cpu_utilization: self.cpu_utilization,
            available_memory_bytes: self.available_memory_bytes,
            available_disk_bytes: self.available_disk_bytes,
            running_processes: self.running_processes,
            most_intense_process_name: self.most_intense_process_name@,
            most_intense_process_owner: self.most_intense_process_owner@,
        }
    }
}

/// The four wire message variants; exactly one is active per message.
#[derive(Debug)]
pub enum MessageType {
    /// Announce the sender's public key during the handshake.
    SendPublicKey(Vec<u8>),

    /// Ask the peer for a fresh periodic update.
    RequestUpdate,

    /// A fresh periodic update.
    SendUpdate(CattleUpdate),

    /// The once-per-session initial-connect report.
    SendInitialInfo(CattleInitialConnect),
}

/// Mathematical value of a [`MessageType`] or a [`Message`].
#[verifier::ext_equal]
pub enum MessageView {
    SendPublicKey(Seq<u8>),
    RequestUpdate,
    SendUpdate(UpdateView),
    SendInitialInfo(InitialConnectView),
}

impl View for MessageType {
    type V = MessageView;

    open spec fn view(&self) -> MessageView {
        match self {
            MessageType::SendPublicKey(k) => MessageView::SendPublicKey(k@),
            MessageType::RequestUpdate => MessageView::RequestUpdate,
            MessageType::SendUpdate(u) => MessageView::SendUpdate(u@),
            MessageType::SendInitialInfo(i) => MessageView::SendInitialInfo(i@),
        }
    }
}

/// The wire envelope: one active variant per message.
#[derive(Debug)]
pub struct Message(pub MessageType);

impl View for Message {
    type V = MessageView;

    open spec fn view(&self) -> MessageView {
        self.0@
    }
}

} // verus!
