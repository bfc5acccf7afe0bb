use fm_xml_explode::script_steps::accounts::{
    calc_or_obfuscated, sanitize_add_account, sanitize_change_password, sanitize_delete_account,
    sanitize_enable_account, sanitize_re_login, sanitize_reset_account_password,
};


#[test]
fn test_add_account_minimal() {
    let xml = r#"
        <Step id="134" name="Add Account" enable="True">
            <ParameterValues membercount="3">
                <Parameter type="AccountType">
                    <List name="FileMaker" value="0"></List>
                </Parameter>
                <Parameter type="PrivilegeSetReference">
                    <PrivilegeSetReference id="0" name="&lt;unknown&gt;"></PrivilegeSetReference>
                </Parameter>
                <Parameter type="Boolean">
                    <Boolean type="Expire password" value="False"></Boolean>
                </Parameter>
            </ParameterValues>
        </Step>
    "#;
    assert_eq!(
        sanitize_add_account(xml.trim(), false),
        Some(
            r#"Add Account [ Authenticate via: FileMaker ; Privilege Set: <unknown> ]"#
                .to_string()
        )
    );
}

#[test]
fn test_add_account_full() {
    let xml = r#"
        <Step id="134" name="Add Account" enable="True">
            <ParameterValues membercount="5">
                <Parameter type="AccountType">
                    <List name="FileMaker" value="0"></List>
                </Parameter>
                <Parameter type="Name">
                    <Calculation datatype="1" position="0">
                        <Calculation>
                            <Text><![CDATA[$name]]></Text>
                        </Calculation>
                    </Calculation>
                </Parameter>
                <Parameter type="Password">
                    <Calculation datatype="1" position="1">
                        <Calculation>
                            <Text><![CDATA[$pw]]></Text>
                        </Calculation>
                    </Calculation>
                </Parameter>
                <Parameter type="PrivilegeSetReference">
                    <PrivilegeSetReference id="2" name="[Data Entry Only]"></PrivilegeSetReference>
                </Parameter>
                <Parameter type="Boolean">
                    <Boolean type="Expire password" value="True"></Boolean>
                </Parameter>
            </ParameterValues>
        </Step>
    "#;
    assert_eq!(
        sanitize_add_account(xml.trim(), false),
        Some(r#"Add Account [ Authenticate via: FileMaker ; Account Name: $name ; Password: $pw ; Privilege Set: [Data Entry Only] ; Expire password ]"#.to_string())
    );
}

#[test]
fn test_add_account_obfuscated() {
    let xml = r#"
        <Step id="134" name="Add Account" enable="True">
            <ParameterValues membercount="5">
                <Parameter type="AccountType">
                    <List name="FileMaker" value="0"></List>
                </Parameter>
                <Parameter type="Name">
                    <Calculation datatype="1" position="0">
                        <Calculation>
                            <Text><![CDATA[$name]]></Text>
                        </Calculation>
                    </Calculation>
                </Parameter>
                <Parameter type="Password">
                    <Calculation datatype="1" position="1">
                        <Calculation>
                            <Text><![CDATA[$pw]]></Text>
                        </Calculation>
                    </Calculation>
                </Parameter>
                <Parameter type="PrivilegeSetReference">
                    <PrivilegeSetReference id="2" name="[Data Entry Only]"></PrivilegeSetReference>
                </Parameter>
                <Parameter type="Boolean">
                    <Boolean type="Expire password" value="False"></Boolean>
                </Parameter>
            </ParameterValues>
        </Step>
    "#;
    assert_eq!(
        sanitize_add_account(xml.trim(), true),
        Some(r#"Add Account [ Authenticate via: FileMaker ; Account Name: $name ; Password: •••••••• ; Privilege Set: [Data Entry Only] ]"#.to_string())
    );
}


#[test]
fn test_change_password_with_dialog() {
    let xml = r#"
        <Step id="83" name="Change Password" enable="True">
            <ParameterValues membercount="1">
                <Parameter type="Boolean">
                    <Boolean type="With dialog" id="128" value="True"></Boolean>
                </Parameter>
            </ParameterValues>
        </Step>
    "#;
    assert_eq!(
        sanitize_change_password(xml.trim(), false),
        Some("Change Password [ With dialog: On ]".to_string())
    );
}

#[test]
fn test_change_password_no_dialog_obfuscated() {
    let xml = r#"
        <Step id="83" name="Change Password" enable="True">
            <ParameterValues membercount="3">
                <Parameter type="Old">
                    <Calculation datatype="1" position="0">
                        <Calculation>
                            <Text><![CDATA[$old]]></Text>
                        </Calculation>
                    </Calculation>
                </Parameter>
                <Parameter type="New">
                    <Calculation datatype="1" position="1">
                        <Calculation>
                            <Text><![CDATA[$new]]></Text>
                        </Calculation>
                    </Calculation>
                </Parameter>
                <Parameter type="Boolean">
                    <Boolean type="With dialog" id="128" value="False"></Boolean>
                </Parameter>
            </ParameterValues>
        </Step>
    "#;
    assert_eq!(
        sanitize_change_password(xml.trim(), true),
        Some("Change Password [ Old Password: •••••••• ; Password: •••••••• ; With dialog: Off ]".to_string())
    );
}


#[test]
fn test_delete_account_with_name() {
    let xml = r#"
        <Step id="135" name="Delete Account" enable="True">
            <ParameterValues membercount="1">
                <Parameter type="Calculation">
                    <Calculation datatype="1" position="0">
                        <Calculation>
                            <Text><![CDATA[$account]]></Text>
                        </Calculation>
                    </Calculation>
                </Parameter>
            </ParameterValues>
        </Step>
    "#;
    assert_eq!(
        sanitize_delete_account(xml.trim()),
        Some("Delete Account [ Account Name: $account ]".to_string())
    );
}

#[test]
fn test_delete_account_empty() {
    let xml = r#"<Step id="135" name="Delete Account" enable="True"></Step>"#;
    assert_eq!(
        sanitize_delete_account(xml.trim()),
        Some("Delete Account".to_string())
    );
}


#[test]
fn test_enable_account_activate() {
    let xml = r#"
        <Step id="137" name="Enable Account" enable="True">
            <ParameterValues membercount="1">
                <Parameter type="Boolean">
                    <Boolean value="True" name="Activate" type="enable"></Boolean>
                </Parameter>
            </ParameterValues>
        </Step>
    "#;
    assert_eq!(
        sanitize_enable_account(xml.trim()),
        Some("Enable Account [ Activate ]".to_string())
    );
}

#[test]
fn test_enable_account_deactivate_with_name() {
    let xml = r#"
        <Step id="137" name="Enable Account" enable="True">
            <ParameterValues membercount="2">
                <Parameter type="Calculation">
                    <Calculation datatype="1" position="0">
                        <Calculation>
                            <Text><![CDATA[$account]]></Text>
                        </Calculation>
                    </Calculation>
                </Parameter>
                <Parameter type="Boolean">
                    <Boolean value="False" name="Activate" type="enable"></Boolean>
                </Parameter>
            </ParameterValues>
        </Step>
    "#;
    assert_eq!(
        sanitize_enable_account(xml.trim()),
        Some("Enable Account [ Account Name: $account ; Deactivate ]".to_string())
    );
}


#[test]
fn test_re_login_no_dialog() {
    let xml = r#"
        <Step id="138" name="Re-Login" enable="True">
            <ParameterValues membercount="2">
                <Parameter type="DataSourceReference">
                    <DataSourceReference id="0" name="Current File"></DataSourceReference>
                </Parameter>
                <Parameter type="Boolean">
                    <Boolean type="With dialog" id="128" value="False"></Boolean>
                </Parameter>
            </ParameterValues>
        </Step>
    "#;
    assert_eq!(
        sanitize_re_login(xml.trim(), false),
        Some("Re-Login [ With dialog: Off ]".to_string())
    );
}

#[test]
fn test_re_login_with_account_and_password_obfuscated() {
    let xml = r#"
        <Step id="138" name="Re-Login" enable="True">
            <ParameterValues membercount="4">
                <Parameter type="DataSourceReference">
                    <DataSourceReference id="0" name="Current File"></DataSourceReference>
                </Parameter>
                <Parameter type="Boolean">
                    <Boolean type="With dialog" id="128" value="False"></Boolean>
                </Parameter>
                <Parameter type="Name">
                    <Calculation datatype="1" position="0">
                        <Calculation>
                            <Text><![CDATA[$account]]></Text>
                        </Calculation>
                    </Calculation>
                </Parameter>
                <Parameter type="Password">
                    <Calculation datatype="1" position="1">
                        <Calculation>
                            <Text><![CDATA[$pw]]></Text>
                        </Calculation>
                    </Calculation>
                </Parameter>
            </ParameterValues>
        </Step>
    "#;
    assert_eq!(
        sanitize_re_login(xml.trim(), true),
        Some(
            "Re-Login [ Account Name: $account ; Password: •••••••• ; With dialog: Off ]"
                .to_string()
        )
    );
}


#[test]
fn test_reset_account_password_empty() {
    let xml = r#"
        <Step id="136" name="Reset Account Password" enable="True">
            <ParameterValues membercount="1">
                <Parameter type="Boolean">
                    <Boolean value="False" type="Password"></Boolean>
                </Parameter>
            </ParameterValues>
        </Step>
    "#;
    assert_eq!(
        sanitize_reset_account_password(xml.trim(), false),
        Some("Reset Account Password []".to_string())
    );
}

#[test]
fn test_reset_account_password_full_obfuscated() {
    let xml = r#"
        <Step id="136" name="Reset Account Password" enable="True">
            <ParameterValues membercount="3">
                <Parameter type="Name">
                    <Calculation datatype="1" position="0">
                        <Calculation>
                            <Text><![CDATA[$account]]></Text>
                        </Calculation>
                    </Calculation>
                </Parameter>
                <Parameter type="Password">
                    <Calculation datatype="1" position="1">
                        <Calculation>
                            <Text><![CDATA[$pw]]></Text>
                        </Calculation>
                    </Calculation>
                </Parameter>
                <Parameter type="Boolean">
                    <Boolean value="True" type="Password"></Boolean>
                </Parameter>
            </ParameterValues>
        </Step>
    "#;
    assert_eq!(
        sanitize_reset_account_password(xml.trim(), true),
        Some("Reset Account Password [ Account Name: $account ; Password: •••••••• ; Expire password ]".to_string())
    );
}

#[test]
fn obfuscation_hides_only_present_passwords() {
    assert_eq!(calc_or_obfuscated(None, true), None);
    assert_eq!(calc_or_obfuscated(Some("$pw".to_string()), true), Some("••••••••".to_string()));
    assert_eq!(calc_or_obfuscated(Some("$pw".to_string()), false), Some("$pw".to_string()));
}

#[test]
fn account_step_without_name_gives_nothing() {
    assert_eq!(sanitize_delete_account(r#"<Step id="135" enable="True"></Step>"#), None);
    assert_eq!(sanitize_add_account(r#"<Step id="134"></Step>"#, false), None);
}

#[test]
fn obfuscated_add_account_ignores_the_password() {
    let step = |password: &str| {
        format!(
            r#"<Step id="134" name="Add Account" enable="True"><ParameterValues membercount="2"><Parameter type="Name"><Calculation><Calculation><Text><![CDATA[$name]]></Text></Calculation></Calculation></Parameter><Parameter type="Password"><Calculation><Calculation><Text><![CDATA[{password}]]></Text></Calculation></Calculation></Parameter></ParameterValues></Step>"#
        )
    };
    let first = sanitize_add_account(&step("\"secret\""), true);
    let second = sanitize_add_account(&step("$other & more"), true);
    assert_eq!(first, second);
    assert!(first.unwrap().contains("Password: ••••••••"));
    assert_ne!(sanitize_add_account(&step("\"secret\""), false), sanitize_add_account(&step("$other & more"), false));
}
