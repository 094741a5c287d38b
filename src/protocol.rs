use vstd::prelude::*;
use crate::config::{Band, GlobPhyNum};
use crate::text::{dec, push_decimal};

verus! {

/// A command sent to the board; exactly one response answers each.
#[derive(Debug, Clone, PartialEq, Eq)]
pub enum DumpCommand {
    DumpIQ { band_5g: bool, file_name: String },
    DelFiles,
    CopyFiles(String),
    SetReg { addr: u32, value: u32 },
    ShellCmd(String),
    ATEInit,
    ATECmd { cmd: String, args: Vec<String> },
}

/// A command with its text as character sequences.
pub enum CmdView {
    DumpIQ { band_5g: bool, file_name: Seq<char> },
    DelFiles,
    CopyFiles(Seq<char>),
    SetReg { addr: u32, value: u32 },
    ShellCmd(Seq<char>),
    ATEInit,
    ATECmd { cmd: Seq<char>, args: Seq<Seq<char>> },
}

impl View for DumpCommand {
    type V = CmdView;

    open spec fn view(&self) -> CmdView {
        match self {
            DumpCommand::DumpIQ { band_5g, file_name } => CmdView::DumpIQ {
                band_5g: *band_5g,
                file_name: file_name@,
            },
            DumpCommand::DelFiles => CmdView::DelFiles,
            DumpCommand::CopyFiles(f) => CmdView::CopyFiles(f@),
            DumpCommand::SetReg { addr, value } => CmdView::SetReg { addr: *addr, value: *value },
            DumpCommand::ShellCmd(s) => CmdView::ShellCmd(s@),
            DumpCommand::ATEInit => CmdView::ATEInit,
            DumpCommand::ATECmd { cmd, args } => CmdView::ATECmd {
                cmd: cmd@,
                args: args.deep_view(),
            },
        }
    }
}

/// The views of a sequence of commands.
pub open spec fn cmds_view(v: Seq<DumpCommand>) -> Seq<CmdView> {
    v.map_values(|c: DumpCommand| c@)
}

/// The board's answer to one command.
#[derive(Debug, Clone, Copy, PartialEq, Eq, Structural)]
pub struct ResponseHeader {
    pub is_error: bool,
    pub file_size: u64,
}

/// What can go wrong while talking to the board.
#[derive(Debug, Clone, Copy, PartialEq, Eq, Structural)]
pub enum SessionError {
    /// The connection could not be set up or broke down.
    Connection,
    /// A response line was not a well-formed response.
    Protocol,
    /// The board answered with its error flag set.
    Device,
    /// The connection ended before a whole file had arrived.
    TransferIncomplete,
    /// A local file could not be written.
    FileIo,
    /// A band was brought up again with its phy index already at 255.
    PhyExhausted,
}

impl SessionError {
    pub open spec fn fatal_spec(&self) -> bool {
        *self == SessionError::Connection || *self == SessionError::Protocol
    }

    /// Whether the session can no longer be trusted after this error.
    pub fn is_fatal(&self) -> (r: bool)
        ensures
            r == self.fatal_spec(),
    {
        match self {
            SessionError::Connection | SessionError::Protocol => true,
            _ => false,
        }
    }
}

/// The success of a single request: the board did not flag an error.
pub fn response_ok(resp: &ResponseHeader) -> (r: bool)
    ensures
        r == !resp.is_error,
{
    !resp.is_error
}

/// Whether every response of a sequence came back without the error flag.
pub open spec fn all_ok(resps: Seq<ResponseHeader>) -> bool {
    forall|i: int| 0 <= i < resps.len() ==> !#[trigger] resps[i].is_error
}

/// Whether a band's bring-up succeeded: no response to its commands carried the
/// error flag. Only then does the band's phy index move on.
pub fn bring_up_ok(resps: &Vec<ResponseHeader>) -> (r: bool)
    ensures
        r == all_ok(resps@),
{
    let mut k: usize = 0;
    while k < resps.len()
        invariant
            k <= resps@.len(),
            forall|i: int| 0 <= i < k ==> !#[trigger] resps@[i].is_error,
        decreases resps@.len() - k,
    {
        if resps[k].is_error {
            return false;
        }
        k = k + 1;
    }
    true
}

/// The 16-bit gain code of a (fem, lna, vga) setting.
pub open spec fn pack_spec(a: u8, b: u8, c: u8) -> u16 {
    ((((a & 1u8) as u16) << 8u16 | ((b & 7u8) as u16) << 5u16 | ((c & 31u8) as u16)) << 1u16)
        | (1u16 << 10u16)
}

/// Packs a gain setting: one bit of fem, three of lna and five of vga, shifted up
/// by one, with the marker bit 10 set.
pub fn pack_bit(a: u8, b: u8, c: u8) -> (r: u16)
    ensures
        r == pack_spec(a, b, c),
{
    let bit1 = a & 1u8;
    let bit2 = b & 7u8;
    let bit3 = c & 31u8;
    ((bit1 as u16) << 8u16 | (bit2 as u16) << 5u16 | (bit3 as u16)) << 1u16 | (1u16 << 10u16)
}

/// Two settings that agree on the bits the code keeps give the same code, and
/// only those do.
pub proof fn lemma_pack_injective(a: u8, b: u8, c: u8, a2: u8, b2: u8, c2: u8)
    ensures
        pack_spec(a, b, c) == pack_spec(a2, b2, c2) <==> (a & 1u8 == a2 & 1u8 && b & 7u8 == b2
            & 7u8 && c & 31u8 == c2 & 31u8),
{
    assert(((((a & 1u8) as u16) << 8u16 | ((b & 7u8) as u16) << 5u16 | ((c & 31u8) as u16))
        << 1u16) | (1u16 << 10u16) == ((((a2 & 1u8) as u16) << 8u16 | ((b2 & 7u8) as u16) << 5u16
        | ((c2 & 31u8) as u16)) << 1u16) | (1u16 << 10u16) <==> (a & 1u8 == a2 & 1u8 && b & 7u8
        == b2 & 7u8 && c & 31u8 == c2 & 31u8)) by (bit_vector);
}

/// The gain-control register of a band.
pub open spec fn gain_reg(band: Band) -> u32 {
    match band {
        Band::HB => 0x30c02f88u32,
        Band::LB => 0x20c02f88u32,
    }
}

/// The two writes that unlock the gain register, and the two that set the code.
pub open spec fn fix_gain_plan(band: Band, fem: u8, lna: u8, vga: u8) -> Seq<CmdView> {
    let code = pack_spec(fem, lna, vga) as u32;
    seq![
        CmdView::SetReg { addr: gain_reg(band), value: 0x2d170d17u32 },
        CmdView::SetReg { addr: gain_reg(band), value: 0x3d171d17u32 },
        CmdView::SetReg { addr: gain_reg(band), value: (code | 0x2000u32) << 16u32 | code },
        CmdView::SetReg {
            addr: gain_reg(band),
            value: (code | 0x3000u32) << 16u32 | (code | 0x1000u32),
        },
    ]
}

/// The register writes that fix the gain of `band` to (fem, lna, vga), in the
/// order they must be sent.
pub fn fix_gain_commands(band: Band, fem: u8, lna: u8, vga: u8) -> (r: Vec<DumpCommand>)
    ensures
        cmds_view(r@) == fix_gain_plan(band, fem, lna, vga),
{
    let addr: u32 = match band {
        Band::HB => 0x30c02f88u32,
        Band::LB => 0x20c02f88u32,
    };
    let code = pack_bit(fem, lna, vga) as u32;
    let mut r: Vec<DumpCommand> = Vec::new();
    r.push(DumpCommand::SetReg { addr, value: 0x2d170d17u32 });
    r.push(DumpCommand::SetReg { addr, value: 0x3d171d17u32 });
    r.push(DumpCommand::SetReg { addr, value: (code | 0x2000u32) << 16u32 | code });
    r.push(DumpCommand::SetReg { addr, value: (code | 0x3000u32) << 16u32 | (code | 0x1000u32) });
    assert(cmds_view(r@) =~= fix_gain_plan(band, fem, lna, vga));
    r
}

/// The shell command that arms the I/Q capture engine of `band` on phy `phy`.
pub open spec fn iq_engine_cmd(band: Band, phy: nat) -> Seq<char> {
    match band {
        Band::HB => "echo 0 1 0 15 0 e000 0 2 0  1 0 0 0 > /sys/kernel/debug/ieee80211/phy"@ + dec(
            phy,
        ) + "/siwifi/iq_engine"@,
        Band::LB => "echo 0 1 0 15 0 1c000 0 2 0  1 0 0 0 > /sys/kernel/debug/ieee80211/phy"@
            + dec(phy) + "/siwifi/iq_engine"@,
    }
}

/// Arm the capture engine, then dump the I/Q samples of `band` to `file_name`.
pub open spec fn dump_iq_plan(band: Band, phy: nat, file_name: Seq<char>) -> Seq<CmdView> {
    seq![
        CmdView::ShellCmd(iq_engine_cmd(band, phy)),
        CmdView::DumpIQ { band_5g: band == Band::HB, file_name },
    ]
}

/// The two commands of an I/Q capture of `band` into the board's file `file_name`;
/// the capture succeeded when the second one is answered without error.
pub fn dump_iq_commands(band: Band, file_name: &String, phys: &GlobPhyNum) -> (r: Vec<
    DumpCommand,
>)
    ensures
        cmds_view(r@) == dump_iq_plan(band, phys.phy_spec(band), file_name@),
{
    let mut cmd = match band {
        Band::HB => String::from_str(
            "echo 0 1 0 15 0 e000 0 2 0  1 0 0 0 > /sys/kernel/debug/ieee80211/phy",
        ),
        Band::LB => String::from_str(
            "echo 0 1 0 15 0 1c000 0 2 0  1 0 0 0 > /sys/kernel/debug/ieee80211/phy",
        ),
    };
    push_decimal(&mut cmd, phys.phy(band));
    cmd.append("/siwifi/iq_engine");
    let mut r: Vec<DumpCommand> = Vec::new();
    r.push(DumpCommand::ShellCmd(cmd));
    let is_hb = match band {
        Band::HB => true,
        Band::LB => false,
    };
    r.push(DumpCommand::DumpIQ { band_5g: is_hb, file_name: file_name.clone() });
    assert(cmds_view(r@) =~= dump_iq_plan(band, phys.phy_spec(band), file_name@));
    r
}

/// The command that deletes the captures on the board.
pub fn del_files_command() -> (r: DumpCommand)
    ensures
        r@ == CmdView::DelFiles,
{
    DumpCommand::DelFiles
}

/// The command that asks the board for the file `file_name`.
pub fn copy_files_command(file_name: &String) -> (r: DumpCommand)
    ensures
        r@ == CmdView::CopyFiles(file_name@),
{
    DumpCommand::CopyFiles(file_name.clone())
}

/// The command that initialises the board's test firmware.
pub fn ate_init_command() -> (r: DumpCommand)
    ensures
        r@ == CmdView::ATEInit,
{
    DumpCommand::ATEInit
}

/// The platform device of the radio of a band.
pub open spec fn wmac(band: Band) -> Seq<char> {
    match band {
        Band::HB => "30000000.wmac"@,
        Band::LB => "20000000.wmac"@,
    }
}

/// The network interface of a band.
pub open spec fn wlan(band: Band) -> Seq<char> {
    match band {
        Band::HB => "wlan0"@,
        Band::LB => "wlan1"@,
    }
}

/// Unbind the band's radio from its driver, then power its blocks down.
pub open spec fn shut_down_plan(band: Band) -> Seq<CmdView> {
    seq![
        CmdView::ShellCmd("echo "@ + wmac(band) + " > /sys/bus/platform/drivers/siwifi_umac/unbind"@),
        CmdView::SetReg { addr: 0x04e00030u32, value: 0xffffu32 },
        CmdView::SetReg { addr: 0x04e00478u32, value: 7u32 },
        CmdView::SetReg { addr: 0x04e004c8u32, value: 7u32 },
    ]
}

fn wmac_name(band: Band) -> (r: &'static str)
    ensures
        r@ == wmac(band),
{
    match band {
        Band::HB => "30000000.wmac",
        Band::LB => "20000000.wmac",
    }
}

fn wlan_name(band: Band) -> (r: &'static str)
    ensures
        r@ == wlan(band),
{
    match band {
        Band::HB => "wlan0",
        Band::LB => "wlan1",
    }
}

/// The commands that shut `band` down, in the order they must be sent.
pub fn shut_down_band_commands(band: Band) -> (r: Vec<DumpCommand>)
    ensures
        cmds_view(r@) == shut_down_plan(band),
{
    let mut cmd = String::from_str("echo ");
    cmd.append(wmac_name(band));
    cmd.append(" > /sys/bus/platform/drivers/siwifi_umac/unbind");
    let mut r: Vec<DumpCommand> = Vec::new();
    r.push(DumpCommand::ShellCmd(cmd));
    r.push(DumpCommand::SetReg { addr: 0x04e00030u32, value: 0xffffu32 });
    r.push(DumpCommand::SetReg { addr: 0x04e00478u32, value: 7u32 });
    r.push(DumpCommand::SetReg { addr: 0x04e004c8u32, value: 7u32 });
    assert(cmds_view(r@) =~= shut_down_plan(band));
    r
}

/// Bind the band's radio to its driver again, then bring its interface up.
pub open spec fn shut_up_plan(band: Band) -> Seq<CmdView> {
    seq![
        CmdView::ShellCmd("echo "@ + wmac(band) + " > /sys/bus/platform/drivers/siwifi_umac/bind"@),
        CmdView::ATECmd { cmd: "ifconfig"@, args: seq![wlan(band), "up"@] },
    ]
}

fn push_word(v: &mut Vec<String>, w: &str)
    ensures
        final(v).deep_view() == old(v).deep_view().push(w@),
{
    v.push(String::from_str(w));
    assert(final(v).deep_view() =~= old(v).deep_view().push(w@));
}

/// The commands that bring `band` up again, in the order they must be sent. Once
/// they are done, the band's phy index moves on (`GlobPhyNum::advance`).
pub fn shut_up_band_commands(band: Band) -> (r: Vec<DumpCommand>)
    ensures
        cmds_view(r@) == shut_up_plan(band),
{
    let mut cmd = String::from_str("echo ");
    cmd.append(wmac_name(band));
    cmd.append(" > /sys/bus/platform/drivers/siwifi_umac/bind");
    let mut args: Vec<String> = Vec::new();
    push_word(&mut args, wlan_name(band));
    push_word(&mut args, "up");
    assert(args.deep_view() =~= seq![wlan(band), "up"@]);
    let mut r: Vec<DumpCommand> = Vec::new();
    r.push(DumpCommand::ShellCmd(cmd));
    r.push(DumpCommand::ATECmd { cmd: String::from_str("ifconfig"), args });
    assert(cmds_view(r@) =~= shut_up_plan(band));
    r
}

/// The words of the test-firmware command that starts continuous receive.
pub open spec fn open_rx_args(band: Band) -> Seq<Seq<char>> {
    match band {
        Band::HB => seq![
            "wlan0"@, "fastconfig"@, "-f"@, "5180"@, "-c"@, "5180"@, "-w"@, "1"@, "-u"@, "1"@, "-r"@,
        ],
        Band::LB => seq![
            "wlan1"@, "fastconfig"@, "-f"@, "2412"@, "-c"@, "2412"@, "-w"@, "1"@, "-u"@, "1"@, "-r"@,
        ],
    }
}

/// The command that puts `band` into continuous receive.
pub fn open_rx_command(band: Band) -> (r: DumpCommand)
    ensures
        r@ == (CmdView::ATECmd { cmd: "ate_cmd"@, args: open_rx_args(band) }),
{
    let mut args: Vec<String> = Vec::new();
    match band {
        Band::HB => {
            push_word(&mut args, "wlan0");
            push_word(&mut args, "fastconfig");
            push_word(&mut args, "-f");
            push_word(&mut args, "5180");
            push_word(&mut args, "-c");
            push_word(&mut args, "5180");
        },
        Band::LB => {
            push_word(&mut args, "wlan1");
            push_word(&mut args, "fastconfig");
            push_word(&mut args, "-f");
            push_word(&mut args, "2412");
            push_word(&mut args, "-c");
            push_word(&mut args, "2412");
        },
    }
    push_word(&mut args, "-w");
    push_word(&mut args, "1");
    push_word(&mut args, "-u");
    push_word(&mut args, "1");
    push_word(&mut args, "-r");
    assert(args.deep_view() =~= open_rx_args(band));
    DumpCommand::ATECmd { cmd: String::from_str("ate_cmd"), args }
}

/// The command that ends continuous receive on `band`.
pub fn close_rx_command(band: Band) -> (r: DumpCommand)
    ensures
        r@ == (CmdView::ATECmd { cmd: "ate_cmd"@, args: seq![wlan(band), "fastconfig"@, "-k"@] }),
{
    let mut args: Vec<String> = Vec::new();
    push_word(&mut args, wlan_name(band));
    push_word(&mut args, "fastconfig");
    push_word(&mut args, "-k");
    assert(args.deep_view() =~= seq![wlan(band), "fastconfig"@, "-k"@]);
    DumpCommand::ATECmd { cmd: String::from_str("ate_cmd"), args }
}

} // verus!
