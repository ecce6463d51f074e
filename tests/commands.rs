use rplidar_drv::{
    le_bytes_u16, le_bytes_u32, lidar_conf_request, motor_ctrl_support_request,
    motor_pwm_request, parse_conf_u16, parse_conf_u32, parse_conf_u8, parse_device_health,
    parse_device_info, parse_lidar_conf, parse_motor_ctrl_support, scan_mode_conf_request,
    start_scan_request, typical_scan_mode_without_conf, Channel, Health, Message,
    ProtocolDecoder, ProtocolEncoder, RplidarDevice, RplidarHostProtocol, RposError,
    ScanOptions,
};

fn answer_frame(cmd: u8, payload: &[u8]) -> Vec<u8> {
    let mut v = vec![0xA5, 0x5A];
    v.extend_from_slice(&(payload.len() as u32).to_le_bytes());
    v.push(cmd);
    v.extend_from_slice(payload);
    v
}

#[test]
fn little_endian_bytes() {
    assert_eq!(le_bytes_u16(0x1234), [0x34, 0x12]);
    assert_eq!(le_bytes_u32(0x12345678), [0x78, 0x56, 0x34, 0x12]);
}

#[test]
fn request_builders() {
    assert_eq!(motor_pwm_request(600), Message::with_data(0xF0, &[0x58, 0x02]));
    assert_eq!(
        motor_ctrl_support_request(),
        Message::with_data(0xFF, &[0, 0, 0, 0])
    );
    assert_eq!(
        start_scan_request(0, &ScanOptions::default()),
        Message::new(0x20)
    );
    assert_eq!(
        start_scan_request(0, &ScanOptions::force_scan()),
        Message::new(0x21)
    );
    assert_eq!(
        start_scan_request(3, &ScanOptions::with_mode(3)),
        Message::with_data(0x82, &[3, 0, 0, 0, 0])
    );
    assert_eq!(
        lidar_conf_request(0x7C, &[]),
        Message::with_data(0x84, &[0x7C, 0, 0, 0])
    );
    assert_eq!(
        scan_mode_conf_request(0x71, 0x0102),
        Message::with_data(0x84, &[0x71, 0, 0, 0, 0x02, 0x01])
    );
}

#[test]
fn scan_options_constructors() {
    let d = ScanOptions::default();
    assert_eq!((d.scan_mode, d.force_scan, d.options), (None, false, 0));
    let m = ScanOptions::with_mode(2);
    assert_eq!((m.scan_mode, m.force_scan), (Some(2), false));
    let f = ScanOptions::force_scan();
    assert_eq!((f.scan_mode, f.force_scan), (None, true));
    let fm = ScanOptions::force_scan_with_mode(4);
    assert_eq!((fm.scan_mode, fm.force_scan), (Some(4), true));
}

#[test]
fn device_info_answer() {
    let mut data = vec![0x18, 0x19, 0x01, 0x05];
    data.extend(0..16u8);
    let info = parse_device_info(&Message::with_data(0x04, &data)).unwrap();
    assert_eq!(info.model, 0x18);
    assert_eq!(info.firmware_version, 0x0119);
    assert_eq!(info.hardware_version, 5);
    assert_eq!(info.serialnum[15], 15);
    assert!(matches!(
        parse_device_info(&Message::with_data(0x06, &data)),
        Err(RposError::OperationFail { .. })
    ));
    assert!(matches!(
        parse_device_info(&Message::with_data(0x04, &data[0..19])),
        Err(RposError::OperationFail { .. })
    ));
}

#[test]
fn device_health_answer() {
    let h = |d: &[u8]| parse_device_health(&Message::with_data(0x06, d)).unwrap();
    assert_eq!(h(&[0, 0, 0]), Health::Healthy);
    assert_eq!(h(&[1, 0x34, 0x12]), Health::Warning(0x1234));
    assert_eq!(h(&[2, 1, 0]), Health::Error(1));
    assert_eq!(h(&[7, 1, 0]), Health::Healthy);
    assert!(matches!(
        parse_device_health(&Message::with_data(0x04, &[0, 0, 0])),
        Err(RposError::OperationFail { .. })
    ));
}

#[test]
fn motor_ctrl_support_answer() {
    let p = |d: &[u8]| parse_motor_ctrl_support(&Message::with_data(0xFF, d));
    assert!(p(&[1, 0, 0, 0]).unwrap());
    assert!(!p(&[2, 0, 0, 0]).unwrap());
    assert!(matches!(p(&[1, 0, 0]), Err(RposError::OperationFail { .. })));
}

#[test]
fn lidar_conf_answer() {
    let msg = Message::with_data(0x20, &[0x7C, 0, 0, 0, 2, 0]);
    let data = parse_lidar_conf(&msg, 0x7C).unwrap();
    assert_eq!(data, vec![2, 0]);
    assert_eq!(parse_conf_u16(&data).unwrap(), 2);
    assert!(matches!(
        parse_lidar_conf(&msg, 0x70),
        Err(RposError::OperationFail { .. })
    ));
    assert!(matches!(
        parse_lidar_conf(&Message::with_data(0x20, &[0x7C, 0]), 0x7C),
        Err(RposError::OperationFail { .. })
    ));
    assert_eq!(parse_conf_u32(&[0, 2, 0, 0]).unwrap(), 512);
    assert_eq!(parse_conf_u8(&[0x84]).unwrap(), 0x84);
    assert!(parse_conf_u8(&[1, 2]).is_err());
}

#[test]
fn typical_mode_of_old_firmware() {
    let mut data = vec![0x20, 0x17, 0x01, 0x05];
    data.extend([0u8; 16]);
    let info = parse_device_info(&Message::with_data(0x04, &data)).unwrap();
    assert_eq!(typical_scan_mode_without_conf(&info), Some(1));
    data[0] = 0x10;
    let info = parse_device_info(&Message::with_data(0x04, &data)).unwrap();
    assert_eq!(typical_scan_mode_without_conf(&info), Some(0));
    data[1] = 0x18;
    let info = parse_device_info(&Message::with_data(0x04, &data)).unwrap();
    assert_eq!(typical_scan_mode_without_conf(&info), None);
}

#[test]
fn channel_reads_fed_answer() {
    let mut chn = Channel::new(RplidarHostProtocol::new());
    let frame = answer_frame(0x06, &[0, 0, 0]);
    assert_eq!(chn.feed(&frame[0..5]), 5);
    assert_eq!(chn.read().unwrap(), None);
    assert_eq!(chn.feed(&frame[5..]), frame.len() - 5);
    assert_eq!(chn.read().unwrap(), Some(Message::with_data(0x06, &[0, 0, 0])));
    assert_eq!(chn.read().unwrap(), None);
}

#[test]
fn channel_reads_answer_across_wrap() {
    let mut chn = Channel::with_read_buffer_size(RplidarHostProtocol::new(), 12);
    assert_eq!(chn.feed(&[0, 0, 0, 0, 0, 0, 0, 0]), 8);
    assert_eq!(chn.read().unwrap(), None);
    let frame = answer_frame(0x81, &[1, 2, 3]);
    assert_eq!(chn.free_space(), 12);
    assert_eq!(chn.feed(&frame), 10);
    assert_eq!(chn.read().unwrap(), Some(Message::with_data(0x81, &[1, 2, 3])));
}

#[test]
fn channel_write_encodes_request() {
    let mut chn = Channel::new(RplidarHostProtocol::new());
    assert_eq!(chn.write(&Message::new(0x25)).unwrap(), vec![0xA5, 0x25]);
    assert!(matches!(
        chn.write(&Message::with_data(0x84, &[0u8; 300])),
        Err(RposError::OperationFail { .. })
    ));
}

#[test]
fn device_reads_and_encodes_through_channel() {
    let mut dev = RplidarDevice::new(Channel::new(RplidarHostProtocol::new()));
    let frame = answer_frame(0x52, &[]);
    assert_eq!(dev.feed(&frame), frame.len());
    assert_eq!(dev.read_message().unwrap(), Some(Message::new(0x52)));
    assert_eq!(
        dev.encode_request(&Message::new(0x50)).unwrap(),
        vec![0xA5, 0x50]
    );
    let msg = dev.start_scan_message(0, &ScanOptions::default());
    assert_eq!(msg, Message::new(0x20));
}

fn decode_with<D: ProtocolDecoder>(d: &mut D, bytes: &[u8]) -> Option<Message> {
    d.decode(bytes).unwrap().1
}

fn encode_with<E: ProtocolEncoder>(e: &mut E, msg: &Message) -> Vec<u8> {
    let size = e.estimate_encoded_size(msg).unwrap();
    let mut buf = vec![0u8; size];
    let n = e.encode(msg, &mut buf).unwrap();
    buf.truncate(n);
    buf
}

#[test]
fn codec_traits() {
    let mut p = RplidarHostProtocol::new();
    let frame = answer_frame(0x04, &[1]);
    assert_eq!(decode_with(&mut p, &frame), Some(Message::with_data(0x04, &[1])));
    p.reset_encoder();
    assert_eq!(
        encode_with(&mut p, &Message::with_data(0x82, &[0; 5])),
        vec![0xA5, 0x82, 0x05, 0, 0, 0, 0, 0, 0x22]
    );
    assert_eq!(
        ProtocolEncoder::encode_to_vec(&mut p, &Message::new(0x40)).unwrap(),
        vec![0xA5, 0x40]
    );
}
