use iq_dump::config::{Band, GlobPhyNum};
use iq_dump::protocol::{
    ate_init_command, close_rx_command, copy_files_command, del_files_command,
    bring_up_ok, dump_iq_commands, fix_gain_commands, open_rx_command, pack_bit, response_ok,
    shut_down_band_commands, shut_up_band_commands, DumpCommand, ResponseHeader, SessionError,
};

#[test]
fn tset_pack_bit() {
    println!("0x{:08X}", pack_bit(1, 0, 1));
}

#[test]
fn pack_bit_regression_value() {
    assert_eq!(pack_bit(1, 0, 1), 0x0602);
    assert_eq!(pack_bit(0, 0, 0), 0x0400);
    assert_eq!(pack_bit(1, 7, 31), 0x07FE);
}

#[test]
fn pack_bit_ignores_high_bits() {
    assert_eq!(pack_bit(3, 8, 32), pack_bit(1, 0, 0));
    assert_ne!(pack_bit(0, 1, 0), pack_bit(0, 0, 1));
    assert_ne!(pack_bit(1, 0, 0), pack_bit(0, 0, 0));
}

fn set_reg(addr: u32, value: u32) -> DumpCommand {
    DumpCommand::SetReg { addr, value }
}

#[test]
fn fix_gain_writes_four_registers_in_order() {
    let cmds = fix_gain_commands(Band::HB, 0, 0, 0);
    assert_eq!(
        cmds,
        vec![
            set_reg(0x30c02f88, 0x2d170d17),
            set_reg(0x30c02f88, 0x3d171d17),
            set_reg(0x30c02f88, 0x24000400),
            set_reg(0x30c02f88, 0x34001400),
        ]
    );
    let cmds = fix_gain_commands(Band::LB, 1, 0, 1);
    assert_eq!(
        cmds,
        vec![
            set_reg(0x20c02f88, 0x2d170d17),
            set_reg(0x20c02f88, 0x3d171d17),
            set_reg(0x20c02f88, 0x26020602),
            set_reg(0x20c02f88, 0x36021602),
        ]
    );
}

#[test]
fn dump_iq_arms_engine_on_current_phy() {
    let mut phys = GlobPhyNum::new();
    let cmds = dump_iq_commands(Band::HB, &"HB_iq_0_0_00.txt".to_string(), &phys);
    assert_eq!(
        cmds,
        vec![
            DumpCommand::ShellCmd(
                "echo 0 1 0 15 0 e000 0 2 0  1 0 0 0 > /sys/kernel/debug/ieee80211/phy1/siwifi/iq_engine"
                    .to_string()
            ),
            DumpCommand::DumpIQ { band_5g: true, file_name: "HB_iq_0_0_00.txt".to_string() },
        ]
    );
    phys.add_lb();
    let cmds = dump_iq_commands(Band::LB, &"LB_iq_0_0_00.txt".to_string(), &phys);
    assert_eq!(
        cmds[0],
        DumpCommand::ShellCmd(
            "echo 0 1 0 15 0 1c000 0 2 0  1 0 0 0 > /sys/kernel/debug/ieee80211/phy2/siwifi/iq_engine"
                .to_string()
        )
    );
    assert_eq!(
        cmds[1],
        DumpCommand::DumpIQ { band_5g: false, file_name: "LB_iq_0_0_00.txt".to_string() }
    );
}

#[test]
fn phy_indices_advance_past_the_largest() {
    let mut phys = GlobPhyNum::new();
    assert_eq!((phys.hb(), phys.lb()), (1, 0));
    phys.add_hb();
    assert_eq!((phys.hb(), phys.lb()), (2, 0));
    phys.add_lb();
    assert_eq!((phys.hb(), phys.lb()), (2, 3));
    phys.advance(Band::HB);
    assert_eq!(phys.phy(Band::HB), 4);
    assert_eq!(phys.phy(Band::LB), 3);
    for _ in 0..20 {
        phys.add_lb();
    }
    assert_eq!(phys.lb(), 24);
    phys.add_hb();
    assert_eq!(phys.hb(), 25);
}

#[test]
fn shut_down_and_up_commands() {
    let down = shut_down_band_commands(Band::LB);
    assert_eq!(
        down,
        vec![
            DumpCommand::ShellCmd(
                "echo 20000000.wmac > /sys/bus/platform/drivers/siwifi_umac/unbind".to_string()
            ),
            set_reg(0x04e00030, 0xffff),
            set_reg(0x04e00478, 7),
            set_reg(0x04e004c8, 7),
        ]
    );
    let up = shut_up_band_commands(Band::HB);
    assert_eq!(
        up,
        vec![
            DumpCommand::ShellCmd(
                "echo 30000000.wmac > /sys/bus/platform/drivers/siwifi_umac/bind".to_string()
            ),
            DumpCommand::ATECmd {
                cmd: "ifconfig".to_string(),
                args: vec!["wlan0".to_string(), "up".to_string()],
            },
        ]
    );
}

#[test]
fn rx_commands() {
    let words: Vec<String> = "wlan1 fastconfig -f 2412 -c 2412 -w 1 -u 1 -r"
        .split(' ')
        .map(|s| s.to_string())
        .collect();
    assert_eq!(
        open_rx_command(Band::LB),
        DumpCommand::ATECmd { cmd: "ate_cmd".to_string(), args: words }
    );
    let words: Vec<String> = "wlan0 fastconfig -f 5180 -c 5180 -w 1 -u 1 -r"
        .split(' ')
        .map(|s| s.to_string())
        .collect();
    assert_eq!(
        open_rx_command(Band::HB),
        DumpCommand::ATECmd { cmd: "ate_cmd".to_string(), args: words }
    );
    assert_eq!(
        close_rx_command(Band::HB),
        DumpCommand::ATECmd {
            cmd: "ate_cmd".to_string(),
            args: vec!["wlan0".to_string(), "fastconfig".to_string(), "-k".to_string()],
        }
    );
}

#[test]
fn single_commands() {
    assert_eq!(del_files_command(), DumpCommand::DelFiles);
    assert_eq!(ate_init_command(), DumpCommand::ATEInit);
    assert_eq!(
        copy_files_command(&"a.txt".to_string()),
        DumpCommand::CopyFiles("a.txt".to_string())
    );
}

#[test]
fn response_flags_and_error_kinds() {
    assert!(response_ok(&ResponseHeader { is_error: false, file_size: 0 }));
    assert!(!response_ok(&ResponseHeader { is_error: true, file_size: 0 }));
    assert!(SessionError::Connection.is_fatal());
    assert!(SessionError::Protocol.is_fatal());
    assert!(!SessionError::Device.is_fatal());
    assert!(!SessionError::TransferIncomplete.is_fatal());
    assert!(!SessionError::FileIo.is_fatal());
    assert!(!SessionError::PhyExhausted.is_fatal());
}

#[test]
fn bring_up_needs_every_response_clean() {
    let ok = ResponseHeader { is_error: false, file_size: 0 };
    let bad = ResponseHeader { is_error: true, file_size: 0 };
    assert!(bring_up_ok(&vec![ok, ok]));
    assert!(bring_up_ok(&vec![]));
    assert!(!bring_up_ok(&vec![ok, bad]));
    assert!(!bring_up_ok(&vec![bad, ok]));
}

#[test]
fn phy_index_stops_at_255() {
    let mut phys = GlobPhyNum::new();
    let mut advanced = 0u32;
    while phys.try_advance(Band::LB) {
        advanced += 1;
    }
    assert_eq!(advanced, 254);
    assert_eq!(phys.lb(), 255);
    assert_eq!(phys.hb(), 1);
    assert!(!phys.try_advance(Band::HB));
    assert_eq!(phys.hb(), 1);
}
