use blog::clock::now_millis;
use blog::oid::ObjectId;
use blog::pagination::page_numbers;
use blog::view::time_text;

#[test]
fn it_works() {
    let id = ObjectId::generate();

    println!("{}", id.to_hex());
    assert_eq!(id.to_hex().len(), 24);
}

#[test]
fn test_datetime() {
    let now_utc = now_millis();
    let now_east_8 = time_text(now_utc).unwrap();

    println!("now_utc:\t{}", now_utc);
    println!("now_east_8:\t{}", now_east_8);

    let mut d = bson::Document::new();
    d.insert("now", bson::DateTime::from_millis(now_utc));
    println!("doc:\t\t{}", d);

    let dd = bson::Bson::DateTime(bson::DateTime::from_millis(now_utc));
    println!("dd:\t{}", dd);
    assert_eq!(now_east_8.len(), 19);
}

#[test]
fn test_div() {
    let d = (8 as f32 / 3 as f32).ceil() as i32;
    println!("{}", d);

    let mut v = vec![1];
    for i in 2..d + 1 {
        v.push(i);
    }

    println!("{:?}", v);
    assert_eq!(page_numbers(8, 3), v);
    assert_eq!(page_numbers(8, 3), vec![1, 2, 3]);

    let d = (8 as f32 / 2 as f32).ceil() as i32;
    println!("{}", d);

    let mut v = vec![1];
    for i in 2..d + 1 {
        v.push(i);
    }

    println!("{:?}", v);
    assert_eq!(page_numbers(8, 2), v);
    assert_eq!(page_numbers(8, 2), vec![1, 2, 3, 4]);
}
