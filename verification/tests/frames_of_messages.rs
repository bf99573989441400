use bytecodec::DecodeExt;
use merdia::addr::SocketAddr;
use merdia::codec::decode_request;
use merdia::stun::{Error, Server};
use stun_codec::rfc5389::Attribute;
use stun_codec::MessageDecoder;

struct Dice(u64);

impl Dice {
    fn roll(&mut self, sides: u64) -> u64 {
        self.0 = self
            .0
            .wrapping_mul(6364136223846793005)
            .wrapping_add(1442695040888963407);
        (self.0 >> 33) % sides
    }
}

fn is_readable(code: u16, value: &[u8]) -> bool {
    match code {
        0x0009 => {
            value.len() >= 4
                && (3..=5).contains(&(value[2] % 8))
                && value[3] < 100
                && std::str::from_utf8(&value[4..]).is_ok()
        }
        0x0020 | 0x802b => {
            value.len() == 8 && value[1] == 1 || value.len() == 20 && value[1] == 2
        }
        0x8022 => match std::str::from_utf8(value) {
            Ok(text) => text.chars().count() < 128,
            Err(_) => false,
        },
        _ => true,
    }
}

/// Whether the bytes are attributes, and all of them can be read.
fn are_readable(mut body: &[u8]) -> bool {
    while !body.is_empty() {
        if body.len() < 4 {
            return false;
        }
        let code = u16::from_be_bytes([body[0], body[1]]);
        let len = usize::from(u16::from_be_bytes([body[2], body[3]]));
        let end = 4 + (len + 3) / 4 * 4;
        if body.len() < end || !is_readable(code, &body[4..4 + len]) {
            return false;
        }
        body = &body[end..];
    }
    true
}

fn message(dice: &mut Dice) -> Vec<u8> {
    let mut body = Vec::new();
    for _ in 0..dice.roll(4) {
        let codes = [0x0009, 0x0020, 0x8022, 0x802b, 0x0006];
        let code: u16 = codes[dice.roll(5) as usize];
        let len = [0, 3, 4, 7, 8, 9, 20, 130][dice.roll(8) as usize];
        let mut value: Vec<u8> = (0..len).map(|_| dice.roll(7) as u8).collect();
        if len > 0 && dice.roll(8) == 0 {
            let place = dice.roll(len) as usize;
            value[place] = dice.roll(256) as u8;
        }
        body.extend_from_slice(&code.to_be_bytes());
        let slip = if dice.roll(10) == 0 { dice.roll(6) } else { 0 };
        body.extend_from_slice(&((len + slip) as u16).to_be_bytes());
        body.extend_from_slice(&value);
        while body.len() % 4 != 0 {
            body.push(dice.roll(2) as u8);
        }
    }
    let mut announced = body.len() as u16;
    match dice.roll(6) {
        0 => announced = announced.wrapping_add(dice.roll(40) as u16),
        1 => announced = announced.wrapping_sub(dice.roll(9) as u16),
        2 => announced = announced.wrapping_mul(2).wrapping_add(dice.roll(3) as u16),
        _ => {}
    }
    let mut bytes = (dice.roll(0x4800) as u16).to_be_bytes().to_vec();
    bytes.extend_from_slice(&announced.to_be_bytes());
    bytes.extend_from_slice(&[0x21, 0x12, 0xa4, 0x42]);
    bytes.extend((0..12).map(|_| dice.roll(256) as u8));
    bytes.extend_from_slice(&body);
    if dice.roll(20) == 0 {
        let len = dice.roll(bytes.len() as u64) as usize;
        bytes.truncate(len);
    }
    if dice.roll(20) == 0 && bytes.len() > 8 {
        bytes[4] = dice.roll(256) as u8;
    }
    bytes
}

#[test]
fn messages_are_told_apart() {
    let mut dice = Dice(7);
    let mut counts = [0; 3];
    let peer = SocketAddr::V4 {
        ip: [1, 2, 3, 4],
        port: 5,
    };
    for _ in 0..20000 {
        let bytes = message(&mut dice);
        let has_header = bytes.len() >= 20
            && bytes[0] < 0x40
            && bytes[4..8] == [0x21, 0x12, 0xa4, 0x42];
        let outcome = if !has_header {
            0
        } else {
            let announced = usize::from(u16::from_be_bytes([bytes[2], bytes[3]]));
            let body = &bytes[20..];
            if body.len() > announced || announced > 2 * body.len() {
                0
            } else if announced != body.len() || !are_readable(body) {
                1
            } else {
                2
            }
        };
        counts[outcome] += 1;
        let seen = match Server::handle_message(&bytes, peer, None) {
            Err(Error::MessageDecode(_)) => 0,
            Err(Error::MessageDecodeBroken) => 1,
            Ok(answer) => {
                assert_eq!(answer[4..20], bytes[4..20]);
                2
            }
            Err(Error::Io(error)) => panic!("no socket is used: {}", error),
        };
        assert_eq!(seen, outcome, "{:?}", bytes);
    }
    assert!(counts.iter().all(|count| *count > 500), "{:?}", counts);
}

#[test]
fn attributes_are_read_as_by_a_decoder_that_knows_them() {
    let mut dice = Dice(11);
    for _ in 0..20000 {
        let mut bytes = message(&mut dice);
        let mut place = 20;
        while place + 4 <= bytes.len() {
            let code = u16::from_be_bytes([bytes[place], bytes[place + 1]]);
            let len = usize::from(u16::from_be_bytes([bytes[place + 2], bytes[place + 3]]));
            if ![0x0009, 0x0020, 0x8022].contains(&code) {
                bytes[place] = 0x77;
                bytes[place + 1] = 0x77;
            }
            place += 4 + (len + 3) / 4 * 4;
        }
        let expected = match MessageDecoder::<Attribute>::new().decode_from_bytes(&bytes) {
            Err(_) => 0,
            Ok(Err(_)) => 1,
            Ok(Ok(_)) => 2,
        };
        let seen = match decode_request(&bytes) {
            Err(_) => 0,
            Ok(None) => 1,
            Ok(Some(_)) => 2,
        };
        assert_eq!(seen, expected, "{:?}", bytes);
    }
}
