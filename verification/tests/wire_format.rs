use hid_gamepad::gamepad_descriptor::{split_axis, GamepadReport};
use serde::ser::{Serialize, SerializeTuple, Serializer};

struct Wire(GamepadReport);

impl Serialize for Wire {
    fn serialize<S>(&self, serializer: S) -> Result<S::Ok, S::Error>
    where
        S: Serializer,
    {
        let mut s = serializer.serialize_tuple(4)?;
        for v in [self.0.x, self.0.y, self.0.z] {
            let (hi, lo) = split_axis(v);
            s.serialize_element(&hi)?;
            s.serialize_element(&lo)?;
        }
        s.serialize_element(&self.0.buttons)?;
        s.end()
    }
}

fn marshalled(r: GamepadReport) -> Vec<u8> {
    let mut buf = [0u8; 64];
    let n = ssmarshal::serialize(&mut buf, &Wire(r)).unwrap();
    buf[..n].to_vec()
}

#[test]
fn serialize_matches_the_marshalled_words() {
    let reports = [
        GamepadReport { buttons: 0, x: 0, y: 0, z: 0 },
        GamepadReport { buttons: 0x81, x: 0x1234_5678, y: -2, z: i32::MIN },
        GamepadReport { buttons: 7, x: i32::MAX, y: -65_536, z: 65_535 },
        GamepadReport { buttons: 1, x: 100, y: -50, z: 16000 },
    ];
    for r in reports {
        assert_eq!(marshalled(r), r.serialize().to_vec());
    }
}
