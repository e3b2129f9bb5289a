use encrypted_ref::{emref, eref};

#[test]
fn encrypted_ref_string() {
    let block = vec![String::from("hello world!")];
    let string_ref = eref(&block, 0);
    println!("Normal string ref: {}", &block[0]);
    println!("Encrypted string ref: {}", string_ref.get());
    assert_eq!(string_ref.get(), "hello world!");
    string_ref.release();
}

#[test]
fn encrypted_mut_ref_string() {
    let mut block = vec![String::from("hello world!")];
    let mut string_ref = emref(&mut block, 0);
    let mut s = string_ref.get().clone();
    s.push_str(" hello from encrypted mut ref!");
    string_ref.replace(s);
    println!("Encrypted string ref: {}", string_ref.get());
    assert_eq!(string_ref.get(), "hello world! hello from encrypted mut ref!");
    string_ref.release();
    assert_eq!(block[0], "hello world! hello from encrypted mut ref!");
}

#[test]
fn borrow_of_later_element_and_its_clone() {
    let block = vec![10u32, 20, 30];
    let r = eref(&block, 2);
    let c = r.clone();
    assert_eq!(*r.get(), 30);
    assert_eq!(*c.get(), 30);
    r.release();
    c.release();
}

#[test]
fn zeroize_wipes_secret_material() {
    let block = vec![1u8];
    let mut r = eref(&block, 0);
    assert!(r.representation().iter().any(|b| *b != 0));
    r.zeroize();
    assert_eq!(r.representation(), vec![0u8; 32]);
    let mut block2 = vec![2u8];
    let mut m = emref(&mut block2, 0);
    m.zeroize();
    assert_eq!(m.representation(), vec![0u8; 32]);
}
