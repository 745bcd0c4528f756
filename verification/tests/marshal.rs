use bytes::Bytes;
use guestjs::errors::Error;
use guestjs::handle::Owned;
use guestjs::host::class::HostClass;
use guestjs::marshal::{
    bytes_from_guest, bytes_to_guest, fill_array, option_from_guest, option_to_guest,
    vec_from_guest, GuestKind, GuestType, Nullish,
};
use rquickjs::{Context, Ctx, Runtime, Value};

struct GuestTypeContract;

impl GuestTypeContract {
    fn accepts<T: GuestType>() {}
}

struct InputOnly;

impl GuestType for InputOnly {
    type Owned = i32;
}

#[derive(Clone)]
struct Coord {
    value: f64,
}

impl HostClass for Coord {
    const NAME: &'static str = "Coord";
}

type Function = Owned<rquickjs::Persistent<rquickjs::Function<'static>>, ()>;
type Object = Owned<rquickjs::Persistent<rquickjs::Object<'static>>, ()>;
type Class = Owned<rquickjs::Persistent<rquickjs::Constructor<'static>>, ()>;
type Instance = Owned<rquickjs::Persistent<rquickjs::Object<'static>>, ()>;
type Promise = Owned<rquickjs::Persistent<rquickjs::Promise<'static>>, ()>;

#[test]
fn guest_type_projects_existing_descriptors() {
    GuestTypeContract::accepts::<i32>();
    GuestTypeContract::accepts::<Vec<i32>>();
    GuestTypeContract::accepts::<Option<Function>>();
    GuestTypeContract::accepts::<Nullish<Object>>();
    GuestTypeContract::accepts::<Function>();
    GuestTypeContract::accepts::<Object>();
    GuestTypeContract::accepts::<Class>();
    GuestTypeContract::accepts::<Instance>();
    GuestTypeContract::accepts::<Promise>();
    GuestTypeContract::accepts::<InputOnly>();
}

#[test]
fn cloneable_host_classes_are_guest_types() {
    GuestTypeContract::accepts::<Coord>();

    let coord: <Coord as GuestType>::Owned = Coord { value: 1.5 };
    assert_eq!(coord.value, 1.5);
}

fn kind_of(source: &str) -> GuestKind {
    let runtime = Runtime::new().unwrap();
    let context = Context::full(&runtime).unwrap();

    context.with(|ctx: Ctx<'_>| GuestKind::of(&ctx.eval::<Value, _>(source).unwrap()))
}

#[test]
fn kinds_tell_undefined_and_null_from_values() {
    assert_eq!(kind_of("undefined"), GuestKind::Undefined);
    assert_eq!(kind_of("null"), GuestKind::Null);
    assert_eq!(kind_of("0"), GuestKind::Present);
    assert_eq!(kind_of("'undefined'"), GuestKind::Present);
    assert_eq!(kind_of("({})"), GuestKind::Present);
    assert_eq!(GuestKind::of_type("uninitialized"), GuestKind::Undefined);
    assert_eq!(GuestKind::of_type("object"), GuestKind::Present);
}

#[test]
fn optional_values_survive_the_guest() {
    let kind = |value: &str| GuestKind::of_type(if value == "null" { "null" } else { "int" });

    for value in [None, Some(0), Some(7)] {
        let guest = option_to_guest(value, "null".to_owned(), |item: i32| Ok(item.to_string()));
        let guest = guest.unwrap();
        let back = option_from_guest(kind(&guest), guest, |text: String| {
            text.parse::<i32>().map_err(|_| Error::conversion("expected a number"))
        });

        assert_eq!(back.unwrap(), value);
    }
}

#[test]
fn nullish_values_are_told_apart() {
    let convert = |value: i32| Ok(value + 1);

    assert_eq!(
        Nullish::from_guest(GuestKind::Undefined, 1, convert).unwrap(),
        Nullish::Undefined,
    );
    assert_eq!(Nullish::from_guest(GuestKind::Null, 1, convert).unwrap(), Nullish::Null);
    assert_eq!(
        Nullish::from_guest(GuestKind::Present, 1, convert).unwrap(),
        Nullish::Present(2),
    );
    assert_eq!(
        Nullish::<i32>::from_guest(GuestKind::Present, 1, |_: i32| {
            Err(Error::conversion("no"))
        })
        .unwrap_err()
        .text(),
        "conversion error: no",
    );
}

#[test]
fn nullish_values_go_to_the_guest_as_they_are() {
    let convert = |value: i32| Ok(value.to_string());

    assert_eq!(
        Nullish::Present(3).to_guest("null".to_owned(), "undefined".to_owned(), convert).unwrap(),
        "3",
    );
    assert_eq!(
        Nullish::Null.to_guest("null".to_owned(), "undefined".to_owned(), convert).unwrap(),
        "null",
    );
    assert_eq!(
        Nullish::Undefined.to_guest("null".to_owned(), "undefined".to_owned(), convert).unwrap(),
        "undefined",
    );
}

#[test]
fn nullish_helpers_look_only_at_present_values() {
    assert_eq!(Nullish::Present(2).map(|value| value * 2), Nullish::Present(4));
    assert_eq!(Nullish::<i32>::Null.map(|value| value * 2), Nullish::Null);
    assert_eq!(Nullish::<i32>::Undefined.map(|value| value * 2), Nullish::Undefined);
    assert_eq!(Nullish::Present(2).unwrap_or(9), 2);
    assert_eq!(Nullish::Null.unwrap_or(9), 9);
    assert_eq!(Nullish::Undefined.unwrap_or_else(|| 8), 8);
    assert_eq!(Nullish::Present(2).unwrap_or_else(|| 8), 2);
    assert_eq!(Nullish::Present(2).ok_or("absent"), Ok(2));
    assert_eq!(Nullish::<i32>::Null.ok_or("absent"), Err("absent"));
    assert_eq!(Nullish::<i32>::Undefined.ok_or_else(|| "absent"), Err("absent"));
    assert_eq!(Nullish::Present(2).ok_or_else(|| "absent"), Ok(2));
}

#[test]
fn nullish_and_optional_values_become_each_other() {
    assert_eq!(Option::from(Nullish::Present(1)), Some(1));
    assert_eq!(Option::<i32>::from(Nullish::Null), None);
    assert_eq!(Option::<i32>::from(Nullish::Undefined), None);
    assert_eq!(Nullish::from(Some(1)), Nullish::Present(1));
    assert_eq!(Nullish::<i32>::from(None), Nullish::Undefined);
}

#[test]
fn optional_values_take_null_and_undefined_and_give_null() {
    let convert = |value: i32| Ok(value + 1);

    assert_eq!(option_from_guest(GuestKind::Undefined, 1, convert).unwrap(), None);
    assert_eq!(option_from_guest(GuestKind::Null, 1, convert).unwrap(), None);
    assert_eq!(option_from_guest(GuestKind::Present, 1, convert).unwrap(), Some(2));
    assert_eq!(option_to_guest(Some(1), 0, convert).unwrap(), 2);
    assert_eq!(option_to_guest(None, 0, convert).unwrap(), 0);
}

#[test]
fn arrays_are_converted_item_by_item() {
    let guest = [3, 4, 5];

    let fetch = |(), i: usize| ((), Ok(guest[i]));
    let tenfold = |(), value: i32| ((), Ok(value * 10));

    assert_eq!(vec_from_guest(Some(3), (), fetch, tenfold).1.unwrap(), vec![30, 40, 50]);
    assert!(vec_from_guest(Some(0), (), fetch, tenfold).1.unwrap().is_empty());
    assert_eq!(
        vec_from_guest(None, (), fetch, tenfold).1.unwrap_err().text(),
        "conversion error: expected an array",
    );
}

#[test]
fn a_failing_item_stops_the_conversion() {
    let (seen, outcome) = vec_from_guest(
        Some(4),
        Vec::new(),
        |mut seen: Vec<usize>, i| {
            seen.push(i);
            (seen, Ok(i))
        },
        |seen, value: usize| {
            if value == 2 {
                (seen, Err(Error::conversion("third")))
            } else {
                (seen, Ok(value))
            }
        },
    );

    assert_eq!(outcome.unwrap_err().text(), "conversion error: third");
    assert_eq!(seen, vec![0, 1, 2]);
}

#[test]
fn items_are_stored_at_their_index() {
    let (array, outcome) = fill_array(
        vec!["a", "b"],
        Vec::new(),
        |array, item: &str| (array, Ok(item.to_uppercase())),
        |mut array: Vec<(usize, String)>, index, value| {
            array.push((index, value));
            (array, Ok(()))
        },
    );
    assert!(outcome.is_ok());
    assert_eq!(array, vec![(0, "A".to_owned()), (1, "B".to_owned())]);

    let (array, outcome) = fill_array(
        vec![1, 2, 3],
        Vec::new(),
        |array, item: i32| (array, Ok(item)),
        |mut array: Vec<i32>, index, value| {
            if index == 1 {
                return (array, Err(Error::engine("full")));
            }
            array.push(value);
            (array, Ok(()))
        },
    );
    assert_eq!(outcome.unwrap_err().text(), "engine error: full");
    assert_eq!(array, vec![1]);
}

#[test]
fn bytes_are_copied_in_both_directions() {
    let memory = vec![1u8, 2, 3, 255];
    let bytes = bytes_from_guest(Some(&memory)).unwrap();

    assert_eq!(bytes, Bytes::from_static(&[1, 2, 3, 255]));
    assert_eq!(
        bytes_to_guest(&bytes, |data| Ok(data.to_vec())).unwrap(),
        vec![1, 2, 3, 255],
    );
    assert_eq!(
        bytes_from_guest(None).unwrap_err().text(),
        "conversion error: Uint8Array is detached",
    );
}
