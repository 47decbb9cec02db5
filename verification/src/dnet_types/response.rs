//! Replies the daemon sends for requests from front ends.
use vstd::prelude::*;

verus! {

/// A JSON value (`serde_json::Value`) carried as the optional payload of a
/// reply; the library never looks inside it.
#[verifier::external_type_specification]
#[verifier::external_body]
pub struct ExValue(serde_json::Value);

/// The reply to a request: a status code, a message and optional data.
pub struct Response {
    pub code: u32,
    pub msg: String,
    pub data: Option<serde_json::Value>,
}

/// The message listed for a conductor status code; the empty text for codes
/// that the list does not hold.
pub open spec fn message_for_code(code: i32) -> Seq<char> {
    if code == 401 {
        "Not yet logged in or the token has expired."@
    } else if code == 403 {
        "No relevant permissions."@
    } else if code == 405 {
        "Parameter value verification failed."@
    } else if code == 406 {
        "Parameter type failed."@
    } else if code == 407 {
        "Request parameter error."@
    } else if code == 408 {
        "file does not exist!"@
    } else if code == 409 {
        "Data does not exist!"@
    } else if code == 410 {
        "Username or password error. Continuous login %s times error account will lock %s minutes, you can also try %s login."@
    } else if code == 411 {
        "User does not exist."@
    } else if code == 412 {
        "User has logged out."@
    } else if code == 413 {
        "User has been frozen."@
    } else if code == 414 {
        "User is not activated."@
    } else if code == 415 {
        "Password error."@
    } else if code == 416 {
        "User logins are too many, please wait for %s seconds and try again."@
    } else if code == 417 {
        "User already exists！"@
    } else if code == 418 {
        "Delete user cannot delete themselves."@
    } else if code == 419 {
        "No permission to delete super administrator."@
    } else if code == 441 {
        "Parameter cannot be empty."@
    } else if code == 600 {
        "The proxy failed to locate and could not obtain the IP address of the external network."@
    } else if code == 601 {
        "Proxy does not exist, please re-select."@
    } else if code == 602 {
        "Uploading public key failed. "@
    } else if code == 603 {
        "Update device proxy tinc status failed."@
    } else if code == 611 {
        "The device has been bound by another account. Please untie it first."@
    } else if code == 612 {
        "Device does not exist."@
    } else if code == 620 {
        "Router does not exist."@
    } else if code == 621 {
        "Router is disabled."@
    } else if code == 622 {
        "Router password error."@
    } else if code == 623 {
        "Router not bound account."@
    } else if code == 624 {
        "Please bind the router with your account first.!"@
    } else if code == 900 {
        "Exception handling."@
    } else if code == 910 {
        "The name of the key value is not in the parameter value, please check."@
    } else if code == 911 {
        "The name of the key value is not in the parameter object. Please check if the value of the object is consistent."@
    } else if code == 402 {
        "The account is locked or inactive"@
    } else if code == 404 {
        "Not Found"@
    } else if code == 500 {
        "Internal Server Error"@
    } else if code == 502 {
        "Bad Gateway"@
    } else if code == 800 {
        "Error reading version information"@
    } else if code == 801 {
        "Version does not exist"@
    } else if code == 802 {
        "Download version error"@
    } else if code == 901 {
        "Parameter error"@
    } else if code == 902 {
        "The server did not start successfully and cannot provide services."@
    } else if code == 903 {
        "Proxy not registered"@
    } else if code == 904 {
        "Group does not exist"@
    } else if code == 905 {
        "Too many members"@
    } else if code == 906 {
        "There is no such device under the group"@
    } else if code == 907 {
        "No proxy to assign"@
    } else if code == 908 {
        "There is no such group under the user"@
    } else if code == 909 {
        "Unsupported operation"@
    } else if code == 912 {
        "The router is not responding"@
    } else if code == 913 {
        "No permission to delete"@
    } else if code == 914 {
        "No permission to modify"@
    } else if code == 915 {
        "No permission to add"@
    } else if code == 916 {
        "No permission to remove"@
    } else if code == 917 {
        "Device does not exist"@
    } else if code == 918 {
        "Already joined"@
    } else if code == 919 {
        "User does not exist"@
    } else if code == 920 {
        "Can't invite yourself"@
    } else if code == 921 {
        "Can't remove yourself"@
    } else if code == 922 {
        "No virtual IP can be assigned"@
    } else if code == 923 {
        "Login log not exist"@
    } else if code == 924 {
        "Update publickey fail"@
    } else if code == 925 {
        "The mac address corresponding device is not reported"@
    } else if code == 926 {
        "The device corresponding to the mac address does not have public key information"@
    } else if code == 927 {
        "Proxy does not exist"@
    } else if code == 928 {
        "Device does not exist"@
    } else if code == 929 {
        "Proxy offline"@
    } else if code == 930 {
        "The assigned IP address format is incorrect"@
    } else if code == 931 {
        "The device already exists in the group"@
    } else if code == 932 {
        "Troubleshooting failed"@
    } else if code == 933 {
        "The device is not currently joined to the group"@
    } else if code == 934 {
        "Operation database failure"@
    } else if code == 935 {
        "No router is in the team, no client device is allowed to be added"@
    } else if code == 936 {
        "The number of users exceeds the maximum number"@
    } else if code == 937 {
        "Maximum number of online users"@
    } else if code == 938 {
        "The device has been bound by other users."@
    } else if code == 939 {
        "Username have registered"@
    } else if code == 940 {
        "Useremail have registered"@
    } else if code == 941 {
        "fail to modify password"@
    } else if code == 942 {
        "fail to modify user's information"@
    } else if code == 943 {
        "FRIENDS_ALREADY"@
    } else if code == 944 {
        "The proxy has been bound by other users."@
    } else if code == 945 {
        "The vpn groud disabled."@
    } else if code == 946 {
        "Online proxy cannot be deleted"@
    } else if code == 511 {
        "No usable proxy."@
    } else {
        ""@
    }
}

/// The code a reply carries for a conductor status code: negative codes
/// become 0.
pub open spec fn reply_code(code: i32) -> u32 {
    if code < 0 {
        0
    } else {
        code as u32
    }
}

impl Response {
    /// A reply with the given parts.
    pub fn new(code: u32, msg: String, data: Option<serde_json::Value>) -> (r: Response)
        ensures
            r.code == code,
            r.msg@ == msg@,
            r.data == data,
    {
        Response { code, msg, data }
    }

    /// The same reply with another message.
    pub fn set_msg(self, msg: String) -> (r: Response)
        ensures
            r.code == self.code,
            r.msg@ == msg@,
            r.data == self.data,
    {
        let mut r = self;
        r.msg = msg;
        r
    }

    /// The same reply with other data.
    pub fn set_data(self, data: Option<serde_json::Value>) -> (r: Response)
        ensures
            r.code == self.code,
            r.msg@ == self.msg@,
            r.data == data,
    {
        let mut r = self;
        r.data = data;
        r
    }

    /// Success: code 200, empty message.
    pub fn success() -> (r: Response)
        ensures
            r.code == 200,
            r.msg@ == ""@,
            r.data is None,
    {
        Response { code: 200, msg: "".to_string(), data: None }
    }

    /// Code 401, "Unauthorized".
    pub fn unauthorized() -> (r: Response)
        ensures
            r.code == 401,
            r.msg@ == "Unauthorized"@,
            r.data is None,
    {
        Response { code: 401, msg: "Unauthorized".to_string(), data: None }
    }

    /// Code 919, "UserNotExist".
    pub fn user_not_exist() -> (r: Response)
        ensures
            r.code == 919,
            r.msg@ == "UserNotExist"@,
            r.data is None,
    {
        Response { code: 919, msg: "UserNotExist".to_string(), data: None }
    }

    /// Code 500 with an empty message.
    pub fn internal_error() -> (r: Response)
        ensures
            r.code == 500,
            r.msg@ == ""@,
            r.data is None,
    {
        Response { code: 500, msg: "".to_string(), data: None }
    }

    /// Code 500, "NotLogIn.".
    pub fn not_login() -> (r: Response)
        ensures
            r.code == 500,
            r.msg@ == "NotLogIn."@,
            r.data is None,
    {
        Response { code: 500, msg: "NotLogIn.".to_string(), data: None }
    }

    /// Code 500, "Timeout".
    pub fn exec_timeout() -> (r: Response)
        ensures
            r.code == 500,
            r.msg@ == "Timeout"@,
            r.data is None,
    {
        Response { code: 500, msg: "Timeout".to_string(), data: None }
    }

    /// The reply for a conductor status code: the code (negative codes
    /// become 0) and the message listed for it.
    pub fn new_from_code(code: i32) -> (r: Response)
        ensures
            r.code == reply_code(code),
            r.msg@ == message_for_code(code),
            r.data is None,
    {
        let msg = Self::get_msg_by_code(code);
        let code: u32 = if code < 0 {
            0
        } else {
            code as u32
        };
        Response { code, msg, data: None }
    }

    /// The message listed for a conductor status code.
    pub fn get_msg_by_code(code: i32) -> (msg: String)
        ensures
            msg@ == message_for_code(code),
    {
        match code {
            401 => "Not yet logged in or the token has expired.".to_string(),
            403 => "No relevant permissions.".to_string(),
            405 => "Parameter value verification failed.".to_string(),
            406 => "Parameter type failed.".to_string(),
            407 => "Request parameter error.".to_string(),
            408 => "file does not exist!".to_string(),
            409 => "Data does not exist!".to_string(),
            410 => "Username or password error. Continuous login %s times error account will lock %s minutes, you can also try %s login.".to_string(),
            411 => "User does not exist.".to_string(),
            412 => "User has logged out.".to_string(),
            413 => "User has been frozen.".to_string(),
            414 => "User is not activated.".to_string(),
            415 => "Password error.".to_string(),
            416 => "User logins are too many, please wait for %s seconds and try again.".to_string(),
            417 => "User already exists！".to_string(),
            418 => "Delete user cannot delete themselves.".to_string(),
            419 => "No permission to delete super administrator.".to_string(),
            441 => "Parameter cannot be empty.".to_string(),
            600 => "The proxy failed to locate and could not obtain the IP address of the external network.".to_string(),
            601 => "Proxy does not exist, please re-select.".to_string(),
            602 => "Uploading public key failed. ".to_string(),
            603 => "Update device proxy tinc status failed.".to_string(),
            611 => "The device has been bound by another account. Please untie it first.".to_string(),
            612 => "Device does not exist.".to_string(),
            620 => "Router does not exist.".to_string(),
            621 => "Router is disabled.".to_string(),
            622 => "Router password error.".to_string(),
            623 => "Router not bound account.".to_string(),
            624 => "Please bind the router with your account first.!".to_string(),
            900 => "Exception handling.".to_string(),
            910 => "The name of the key value is not in the parameter value, please check.".to_string(),
            911 => "The name of the key value is not in the parameter object. Please check if the value of the object is consistent.".to_string(),
            402 => "The account is locked or inactive".to_string(),
            404 => "Not Found".to_string(),
            500 => "Internal Server Error".to_string(),
            502 => "Bad Gateway".to_string(),
            800 => "Error reading version information".to_string(),
            801 => "Version does not exist".to_string(),
            802 => "Download version error".to_string(),
            901 => "Parameter error".to_string(),
            902 => "The server did not start successfully and cannot provide services.".to_string(),
            903 => "Proxy not registered".to_string(),
            904 => "Group does not exist".to_string(),
            905 => "Too many members".to_string(),
            906 => "There is no such device under the group".to_string(),
            907 => "No proxy to assign".to_string(),
            908 => "There is no such group under the user".to_string(),
            909 => "Unsupported operation".to_string(),
            912 => "The router is not responding".to_string(),
            913 => "No permission to delete".to_string(),
            914 => "No permission to modify".to_string(),
            915 => "No permission to add".to_string(),
            916 => "No permission to remove".to_string(),
            917 => "Device does not exist".to_string(),
            918 => "Already joined".to_string(),
            919 => "User does not exist".to_string(),
            920 => "Can't invite yourself".to_string(),
            921 => "Can't remove yourself".to_string(),
            922 => "No virtual IP can be assigned".to_string(),
            923 => "Login log not exist".to_string(),
            924 => "Update publickey fail".to_string(),
            925 => "The mac address corresponding device is not reported".to_string(),
            926 => "The device corresponding to the mac address does not have public key information".to_string(),
            927 => "Proxy does not exist".to_string(),
            928 => "Device does not exist".to_string(),
            929 => "Proxy offline".to_string(),
            930 => "The assigned IP address format is incorrect".to_string(),
            931 => "The device already exists in the group".to_string(),
            932 => "Troubleshooting failed".to_string(),
            933 => "The device is not currently joined to the group".to_string(),
            934 => "Operation database failure".to_string(),
            935 => "No router is in the team, no client device is allowed to be added".to_string(),
            936 => "The number of users exceeds the maximum number".to_string(),
            937 => "Maximum number of online users".to_string(),
            938 => "The device has been bound by other users.".to_string(),
            939 => "Username have registered".to_string(),
            940 => "Useremail have registered".to_string(),
            941 => "fail to modify password".to_string(),
            942 => "fail to modify user's information".to_string(),
            943 => "FRIENDS_ALREADY".to_string(),
            944 => "The proxy has been bound by other users.".to_string(),
            945 => "The vpn groud disabled.".to_string(),
            946 => "Online proxy cannot be deleted".to_string(),
            511 => "No usable proxy.".to_string(),
            _ => "".to_string(),
        }
    }
}

} // verus!
