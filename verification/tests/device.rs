use lora_phy::device::{Downlink, JoinMode, Timings};

struct Board;

impl Timings for Board {
    fn get_rx_window_offset_ms(&self) -> i32 {
        -100
    }

    fn get_rx_window_duration_ms(&self) -> u32 {
        200
    }
}

#[test]
fn a_board_tunes_its_receive_windows() {
    let board = Board;
    assert_eq!(board.get_rx_window_offset_ms(), -100);
    assert_eq!(board.get_rx_window_duration_ms(), 200);
}

#[test]
fn a_downlink_carries_payload_and_port() {
    let data = heapless::Vec::<u8, 256>::from_slice(&[0xde, 0xad, 0xbe, 0xef]).unwrap();
    let downlink = Downlink { data, fport: 42 };
    assert_eq!(downlink.fport, 42);
    assert_eq!(downlink.data.as_slice(), &[0xde, 0xad, 0xbe, 0xef]);
    assert_eq!(downlink.data.capacity(), 256);
}

#[test]
fn join_modes_compare_by_their_credentials() {
    let deveui = lorawan::keys::DevEui::from([1, 2, 3, 4, 5, 6, 7, 8]);
    let appeui = lorawan::keys::AppEui::from([8, 7, 6, 5, 4, 3, 2, 1]);
    let appkey = lorawan::keys::AppKey::from([0x11; 16]);
    let otaa = JoinMode::OTAA { deveui, appeui, appkey };
    let copy = otaa;
    assert_eq!(otaa, copy);
    assert_ne!(otaa, JoinMode::OTAA { deveui, appeui, appkey: lorawan::keys::AppKey::from([0x12; 16]) });

    let nwkskey = lorawan::keys::NewSKey::from([0x22; 16]);
    let appskey = lorawan::keys::AppSKey::from([0x33; 16]);
    let abp = JoinMode::ABP { nwkskey, appskey, devaddr: [4, 3, 2, 1] };
    assert_eq!(abp, abp.clone());
    assert_ne!(abp, JoinMode::ABP { nwkskey, appskey, devaddr: [4, 3, 2, 2] });
    assert_ne!(abp, otaa);
    assert!(matches!(abp, JoinMode::ABP { devaddr: [4, 3, 2, 1], .. }));
}
