use datutils::scheme::CompressionScheme;
use datutils::{load, save};
use ndarray::Array1;
use serde::de::{Deserialize, Deserializer, Error, MapAccess, SeqAccess, Visitor};
use serde::ser::{Serialize, SerializeStruct, Serializer};

#[derive(Debug, PartialEq)]
struct Foo {
    bar: u32,
    baz: Array1<f64>,
}

impl Serialize for Foo {
    fn serialize<S: Serializer>(&self, serializer: S) -> Result<S::Ok, S::Error> {
        let mut state = serializer.serialize_struct("Foo", 2)?;
        state.serialize_field("bar", &self.bar)?;
        state.serialize_field("baz", &self.baz)?;
        state.end()
    }
}

struct FooVisitor;

impl<'de> Visitor<'de> for FooVisitor {
    type Value = Foo;

    fn expecting(&self, formatter: &mut std::fmt::Formatter) -> std::fmt::Result {
        formatter.write_str("struct Foo")
    }

    fn visit_seq<A: SeqAccess<'de>>(self, mut seq: A) -> Result<Foo, A::Error> {
        let bar = seq.next_element()?.ok_or_else(|| A::Error::invalid_length(0, &self))?;
        let baz = seq.next_element()?.ok_or_else(|| A::Error::invalid_length(1, &self))?;
        Ok(Foo { bar, baz })
    }

    fn visit_map<A: MapAccess<'de>>(self, mut map: A) -> Result<Foo, A::Error> {
        let mut bar: Option<u32> = None;
        let mut baz: Option<Array1<f64>> = None;
        while let Some(key) = map.next_key::<String>()? {
            if key == "bar" {
                bar = Some(map.next_value()?);
            } else if key == "baz" {
                baz = Some(map.next_value()?);
            } else {
                return Err(A::Error::unknown_field(&key, &["bar", "baz"]));
            }
        }
        let bar = bar.ok_or_else(|| A::Error::missing_field("bar"))?;
        let baz = baz.ok_or_else(|| A::Error::missing_field("baz"))?;
        Ok(Foo { bar, baz })
    }
}

impl<'de> Deserialize<'de> for Foo {
    fn deserialize<D: Deserializer<'de>>(deserializer: D) -> Result<Foo, D::Error> {
        deserializer.deserialize_struct("Foo", &["bar", "baz"], FooVisitor)
    }
}

fn foo() -> Foo {
    Foo { bar: 1, baz: Array1::<f64>::linspace(-1., 1., 10) }
}

fn stored(path: &str, value: &Foo) -> Vec<u8> {
    let envelope = rmp_serde::to_vec_named(value).unwrap();
    save(path, &envelope).unwrap()
}

fn restored(path: &str, contents: &[u8]) -> Foo {
    let envelope = load(path, contents).unwrap();
    rmp_serde::from_read(&envelope[..]).unwrap()
}

#[test]
fn it_works() {
    let foo = foo();
    let contents = stored("test.msg", &foo);
    let boo = restored("test.msg", &contents);
    assert_eq!(foo, boo);
}

#[test]
fn it_works_with_lz4() {
    let foo = foo();
    let contents = stored("test.msg.lz4", &foo);
    let boo = restored("test.msg.lz4", &contents);
    assert_eq!(foo, boo);
}

#[test]
fn it_works_with_zstd() {
    let foo = foo();
    let contents = stored("test.msg.zstd", &foo);
    let boo = restored("test.msg.zstd", &contents);
    assert_eq!(foo, boo);
}

#[test]
fn it_works_with_gzip() {
    let foo = foo();
    let contents = stored("test.msg.gz", &foo);
    let boo = restored("test.msg.gz", &contents);
    assert_eq!(foo, boo);
}

#[test]
fn it_works_with_xz() {
    let foo = foo();
    let contents = stored("test.msg.xz", &foo);
    let boo = restored("test.msg.xz", &contents);
    assert_eq!(foo, boo);
}

#[test]
fn every_scheme_restores_the_same_value() {
    let foo = foo();
    let paths = ["test.msg", "test.msg.lz4", "test.msg.zstd", "test.msg.gz", "test.msg.xz"];
    for path in paths {
        let boo = restored(path, &stored(path, &foo));
        assert_eq!(boo.bar, 1);
        assert_eq!(boo.baz.len(), 10);
        assert_eq!(boo.baz[0], -1.0);
        assert_eq!(boo.baz[9], 1.0);
        for i in 0..10 {
            assert_eq!(boo.baz[i].to_bits(), foo.baz[i].to_bits());
        }
    }
}

#[test]
fn compressed_contents_differ_from_the_envelope() {
    let foo = foo();
    let envelope = rmp_serde::to_vec_named(&foo).unwrap();
    for path in ["test.msg.lz4", "test.msg.zstd", "test.msg.gz", "test.msg.xz"] {
        let contents = save(path, &envelope).unwrap();
        assert_ne!(contents, envelope);
    }
}

#[test]
fn unknown_extension_stores_the_envelope_itself() {
    let foo = foo();
    let envelope = rmp_serde::to_vec_named(&foo).unwrap();
    let with_unknown = save("test.msg.foo", &envelope).unwrap();
    let without = save("test.msg", &envelope).unwrap();
    let bare = save("test", &envelope).unwrap();
    assert_eq!(with_unknown, without);
    assert_eq!(with_unknown, bare);
    assert_eq!(with_unknown, envelope);
    assert_eq!(restored("test.msg.foo", &with_unknown), foo);
}

#[test]
fn saving_again_replaces_what_was_saved() {
    let foo = foo();
    for path in ["test.msg", "test.msg.lz4", "test.msg.zstd", "test.msg.gz", "test.msg.xz"] {
        let first = stored(path, &foo);
        let second = stored(path, &foo);
        assert_eq!(first, second);
        assert_eq!(restored(path, &second), foo);
    }
}

#[test]
fn truncated_file_never_restores_a_value() {
    let foo = foo();
    for path in ["test.msg", "test.msg.lz4", "test.msg.zstd", "test.msg.gz", "test.msg.xz"] {
        let contents = stored(path, &foo);
        for cut in 1..=contents.len() {
            let short = &contents[..contents.len() - cut];
            let outcome = match load(path, short) {
                Ok(envelope) => rmp_serde::from_read::<_, Foo>(&envelope[..]).ok(),
                Err(e) => {
                    assert_ne!(e.scheme, CompressionScheme::Raw);
                    None
                }
            };
            assert!(outcome.is_none(), "{} cut by {}", path, cut);
        }
    }
}

#[test]
fn truncated_compressed_file_fails_in_the_codec() {
    let foo = foo();
    let cases = [
        ("test.msg.lz4", CompressionScheme::Lz4),
        ("test.msg.zstd", CompressionScheme::Zstd),
        ("test.msg.gz", CompressionScheme::Gzip),
        ("test.msg.xz", CompressionScheme::Xz),
    ];
    for (path, scheme) in cases {
        let contents = stored(path, &foo);
        for cut in 1..=contents.len() {
            let e = load(path, &contents[..contents.len() - cut]).unwrap_err();
            assert_eq!(e.scheme, scheme, "{} cut by {}", path, cut);
        }
    }
}

#[test]
fn one_byte_envelope_at_compressed_paths() {
    let envelope = rmp_serde::to_vec_named(&1u8).unwrap();
    assert_eq!(envelope, vec![0x01]);

    let zstd = save("a.b.zstd", &envelope).unwrap();
    assert_eq!(&zstd[..4], &[0x28, 0xb5, 0x2f, 0xfd]);
    assert_eq!(load("a.b.zstd", &zstd).unwrap(), envelope);

    let gz = save("a.gz", &envelope).unwrap();
    assert_eq!(&gz[..3], &[0x1f, 0x8b, 0x08]);
    assert_eq!(&gz[gz.len() - 4..], &[0x01, 0, 0, 0]);
    assert_eq!(load("a.gz", &gz).unwrap(), envelope);

    let hidden = save(".gz", &envelope).unwrap();
    assert_eq!(hidden, gz);
    let value: u8 = rmp_serde::from_read(&load(".gz", &hidden).unwrap()[..]).unwrap();
    assert_eq!(value, 1);
}
