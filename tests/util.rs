use hudhook::util::{out_param, try_out_err_blob, try_out_param, try_out_ptr};

#[test]
fn try_out_param_yields_filled_value() {
    let r: Result<u32, &str> = try_out_param(|t: &mut u32| {
        *t += 41;
        Ok::<(), &str>(())
    });
    assert_eq!(r, Ok(41));
    let e: Result<u32, &str> = try_out_param(|_t: &mut u32| Err::<(), &str>("no"));
    assert_eq!(e, Err("no"));
}

#[test]
fn try_out_ptr_yields_filled_value() {
    let r: Result<String, u8> = try_out_ptr(|t: &mut Option<String>| {
        *t = Some(String::from("x"));
        Ok::<u8, u8>(0)
    });
    assert_eq!(r, Ok(String::from("x")));
    let e: Result<String, u8> = try_out_ptr(|_t: &mut Option<String>| Err::<u8, u8>(3));
    assert_eq!(e, Err(3));
}

#[test]
fn try_out_err_blob_returns_blob_on_error() {
    let r: Result<u8, (&str, String)> = try_out_err_blob(|a: &mut Option<u8>, _b: &mut Option<String>| {
        *a = Some(9);
        Ok::<(), &str>(())
    });
    assert_eq!(r, Ok(9));
    let e: Result<u8, (&str, String)> = try_out_err_blob(|_a: &mut Option<u8>, b: &mut Option<String>| {
        *b = Some(String::from("log"));
        Err::<(), &str>("bad")
    });
    assert_eq!(e, Err(("bad", String::from("log"))));
}

#[test]
fn out_param_returns_what_was_written() {
    let v: Vec<u8> = out_param(|v: &mut Vec<u8>| v.push(4));
    assert_eq!(v, vec![4]);
}
