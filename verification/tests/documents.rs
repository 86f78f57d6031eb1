use csv_converter::{convert_1password_to_bitwarden, convert_bitwarden_to_1password};
use csv_converter::{Bitwarden, OnePassword};

const BITWARDEN_HEADER: [&str; 12] = [
    "folder",
    "favorite",
    "type",
    "name",
    "notes",
    "fields",
    "reprompt",
    "login_uri",
    "login_username",
    "login_password",
    "login_totp",
    "extras",
];

const ONEPASSWORD_HEADER: [&str; 10] = [
    "Title", "Url", "Username", "Password", "OTPAuth", "Favorite", "Archived", "Tags", "Notes",
    "extras",
];

fn cell(record: &csv::StringRecord, i: usize) -> Option<String> {
    match record.get(i) {
        Some(s) if !s.is_empty() => Some(s.to_string()),
        _ => None,
    }
}

fn shown(field: &Option<String>) -> &str {
    field.as_deref().unwrap_or("")
}

fn bitwarden_of(record: &csv::StringRecord) -> Bitwarden {
    Bitwarden {
        folder: cell(record, 0),
        favorite: cell(record, 1),
        type_field: cell(record, 2),
        name: cell(record, 3),
        notes: cell(record, 4),
        fields: cell(record, 5),
        reprompt: cell(record, 6),
        login_uri: cell(record, 7),
        login_username: cell(record, 8),
        login_password: cell(record, 9),
        login_totp: cell(record, 10),
        extras: cell(record, 11),
    }
}

fn onepassword_of(record: &csv::StringRecord) -> OnePassword {
    OnePassword {
        Title: cell(record, 0),
        Url: cell(record, 1),
        Username: cell(record, 2),
        Password: cell(record, 3),
        OTPAuth: cell(record, 4),
        Favorite: cell(record, 5),
        Archived: cell(record, 6),
        Tags: cell(record, 7),
        Notes: cell(record, 8),
        extras: cell(record, 9),
    }
}

#[test]
fn forward_document_with_one_login_row() {
    let input = "folder,favorite,type,name,notes,fields,reprompt,login_uri,login_username,login_password,login_totp,extras\n\
                 Work,true,login,GitHub,,,\"\",https://github.com,alice,secret,,\n";
    let mut reader = csv::Reader::from_reader(input.as_bytes());
    assert_eq!(reader.headers().unwrap().iter().collect::<Vec<&str>>(), BITWARDEN_HEADER);
    let mut writer = csv::Writer::from_writer(Vec::new());
    writer.write_record(ONEPASSWORD_HEADER).unwrap();
    for row in reader.records() {
        let out = convert_bitwarden_to_1password(bitwarden_of(&row.unwrap()));
        writer
            .write_record([
                shown(&out.Title),
                shown(&out.Url),
                shown(&out.Username),
                shown(&out.Password),
                shown(&out.OTPAuth),
                shown(&out.Favorite),
                shown(&out.Archived),
                shown(&out.Tags),
                shown(&out.Notes),
                shown(&out.extras),
            ])
            .unwrap();
    }
    let output = String::from_utf8(writer.into_inner().unwrap()).unwrap();
    assert_eq!(
        output,
        "Title,Url,Username,Password,OTPAuth,Favorite,Archived,Tags,Notes,extras\n\
         GitHub,https://github.com,alice,secret,,,,Work,,[favourite:true]\n"
    );
}

#[test]
fn reverse_document_with_one_login_row() {
    let input = "Title,Url,Username,Password,OTPAuth,Favorite,Archived,Tags,Notes,extras\n\
                 GitHub,https://github.com,alice,secret,,1,0,Work,,\"[reprompt:1], kept\"\n";
    let mut reader = csv::Reader::from_reader(input.as_bytes());
    assert_eq!(reader.headers().unwrap().iter().collect::<Vec<&str>>(), ONEPASSWORD_HEADER);
    let mut writer = csv::Writer::from_writer(Vec::new());
    writer.write_record(BITWARDEN_HEADER).unwrap();
    for row in reader.records() {
        let out = convert_1password_to_bitwarden(onepassword_of(&row.unwrap()));
        writer
            .write_record([
                shown(&out.folder),
                shown(&out.favorite),
                shown(&out.type_field),
                shown(&out.name),
                shown(&out.notes),
                shown(&out.fields),
                shown(&out.reprompt),
                shown(&out.login_uri),
                shown(&out.login_username),
                shown(&out.login_password),
                shown(&out.login_totp),
                shown(&out.extras),
            ])
            .unwrap();
    }
    let output = String::from_utf8(writer.into_inner().unwrap()).unwrap();
    assert_eq!(
        output,
        "folder,favorite,type,name,notes,fields,reprompt,login_uri,login_username,login_password,login_totp,extras\n\
         Work,1,,GitHub,,,,https://github.com,alice,secret,,\"[reprompt:1], kept\"\n"
    );
}
