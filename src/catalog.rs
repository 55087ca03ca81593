//! Register addresses and subcommand codes of the gauge.

use vstd::prelude::*;

verus! {

/// Average current.
pub const CMD_AI: u8 = 0x0a;
/// Control register: the subcommand channel.
pub const CMD_CNTL: u8 = 0x00;
/// Full charge capacity.
pub const CMD_FCC: u8 = 0x06;
/// Flags, low 16 bits.
pub const CMD_FLAGS: u8 = 0x0e;
/// Flags, high 16 bits.
pub const CMD_FLAGSB: u8 = 0x12;
/// Current.
pub const CMD_I: u8 = 0x10;
/// Max error (one byte).
pub const CMD_ME: u8 = 0x03;
/// Remaining capacity.
pub const CMD_RM: u8 = 0x04;
/// State of charge (one byte).
pub const CMD_SOC: u8 = 0x02;
/// Temperature.
pub const CMD_TEMP: u8 = 0x0c;
/// Voltage.
pub const CMD_VOLT: u8 = 0x04;
pub const CMD_ATTE: u8 = 0x18;
pub const CMD_ATTF: u8 = 0x1A;
pub const CMD_PCHG: u8 = 0x1C;
pub const CMD_DOD0T: u8 = 0x1E;
pub const CMD_AE: u8 = 0x24;
pub const CMD_AP: u8 = 0x26;
pub const CMD_SERNUM: u8 = 0x28;
pub const CMD_INTTEMP: u8 = 0x2A;
pub const CMD_CC: u8 = 0x2C;
pub const CMD_SOH: u8 = 0x2E;
pub const CMD_CHGV: u8 = 0x30;
pub const CMD_CHGI: u8 = 0x32;
pub const CMD_PKCFG: u8 = 0x3A;
pub const CMD_DCAP: u8 = 0x3C;
/// Data-flash class select.
pub const CMD_DFCLS: u8 = 0x3E;
/// Data-flash block select.
pub const CMD_DFBLK: u8 = 0x3F;
/// Start of the data-flash data window.
pub const CMD_A_DF: u8 = 0x40;
pub const CMD_ACKS_DFD: u8 = 0x54;
pub const CMD_DFD: u8 = 0x55;
/// Data-flash block checksum.
pub const CMD_DFDCKS: u8 = 0x60;
pub const CMD_DFDCNTL: u8 = 0x61;
pub const CMD_GN: u8 = 0x62;
pub const CMD_LS: u8 = 0x63;
pub const CMD_DEOC: u8 = 0x64;
pub const CMD_QS: u8 = 0x66;
pub const CMD_TRC: u8 = 0x68;
pub const CMD_TFCC: u8 = 0x6A;
pub const CMD_ST: u8 = 0x6C;
pub const CMD_QPC: u8 = 0x6E;
pub const CMD_DOD0: u8 = 0x70;
pub const CMD_QD0: u8 = 0x72;
pub const CMD_QT: u8 = 0x74;

// Subcommands of the control register.
pub const SUB_CMD_CONTROL_STATUS: u16 = 0x0000;
pub const SUB_CMD_DEVICE_TYPE: u16 = 0x0001;
pub const SUB_CMD_FW_VERSION: u16 = 0x0002;
pub const SUB_CMD_HW_VERSION: u16 = 0x0003;
pub const SUB_CMD_RESET_DATA: u16 = 0x0005;
pub const SUB_CMD_PREV_MACWRITE: u16 = 0x0007;
pub const SUB_CMD_CHEM_ID: u16 = 0x0008;
pub const SUB_CMD_BOARD_OFFSET: u16 = 0x0009;
pub const SUB_CMD_CC_OFFSET: u16 = 0x000A;
pub const SUB_CMD_CC_OFFSET_SAVE: u16 = 0x000B;
pub const SUB_CMD_DF_VERSION: u16 = 0x000C;
pub const SUB_CMD_SET_FULLSLEEP: u16 = 0x0010;
pub const SUB_CMD_STATIC_CHEM_CHKSUM: u16 = 0x0017;
pub const SUB_CMD_SEALED: u16 = 0x0020;
pub const SUB_CMD_IT_ENABLE: u16 = 0x0021;
pub const SUB_CMD_CAL_ENABLE: u16 = 0x002D;
pub const SUB_CMD_RESET: u16 = 0x0041;
pub const SUB_CMD_EXIT_CAL: u16 = 0x0080;
pub const SUB_CMD_ENTER_CAL: u16 = 0x0081;
pub const SUB_CMD_OFFSET_CAL: u16 = 0x0082;

} // verus!
