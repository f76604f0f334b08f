//! The fixed text of the documents, with holes for what a record holds.
//!
//! Each text is a template as the module `template` reads it: `{}` is a
//! hole, and a brace that belongs to the text is written twice.

use vstd::prelude::*;

verus! {

/// A staff record laid out for printing on one upright page. The window
/// that shows it opens the print dialog by itself.
///
/// Holes: name; appointment number; name; gender; date of birth; age;
/// identity card number; marital status; address; contact number; email;
/// designation; date of first appointment; date of retirement; increment
/// date; salary code; basic salary; increment amount; date of the document;
/// appointment number.
pub const RECORD_PRINT: &'static str = r#"
<!DOCTYPE html>
<html>
<head>
    <meta charset="UTF-8">
    <title>Staff Record - {}</title>
    <style>
        @page {{
            size: A4;
            margin: 15mm;
        }}

        body {{
            font-family: 'Times New Roman', serif;
            margin: 0;
            padding: 0;
            background: white;
            color: #000;
            line-height: 1.2;
            font-size: 11px;
        }}

        .document {{
            width: 100%;
            max-width: 210mm;
            margin: 0 auto;
            background: white;
            min-height: 100vh;
            position: relative;
            padding: 10px;
        }}

        .header {{
            text-align: center;
            border-bottom: 3px double #000;
            padding-bottom: 10px;
            margin-bottom: 15px;
        }}

        .org-title {{
            font-size: 16px;
            font-weight: bold;
            text-transform: uppercase;
            margin: 3px 0;
        }}

        .org-subtitle {{
            font-size: 13px;
            margin: 3px 0;
        }}

        .org-location {{
            font-size: 11px;
            font-style: italic;
            margin: 3px 0;
        }}

        .document-title {{
            font-size: 15px;
            font-weight: bold;
            text-transform: uppercase;
            margin-top: 10px;
            text-decoration: underline;
        }}

        .content {{
            padding: 0 10px;
        }}

        .section {{
            margin-bottom: 15px;
        }}

        .section-title {{
            font-size: 13px;
            font-weight: bold;
            text-transform: uppercase;
            border-bottom: 2px solid #000;
            padding-bottom: 3px;
            margin-bottom: 8px;
        }}

        .field-row {{
            display: table;
            width: 100%;
            margin-bottom: 4px;
        }}

        .field-label {{
            display: table-cell;
            font-weight: bold;
            width: 140px;
            vertical-align: top;
            padding-right: 8px;
            font-size: 10px;
        }}

        .field-value {{
            display: table-cell;
            vertical-align: top;
            border-bottom: 1px dotted #333;
            padding-bottom: 1px;
            font-size: 10px;
        }}

        .signature-section {{
            margin-top: 25px;
            display: table;
            width: 100%;
        }}

        .signature-box {{
            display: table-cell;
            width: 50%;
            text-align: center;
            padding: 15px;
        }}

        .signature-line {{
            border-top: 1px solid #000;
            margin-top: 30px;
            padding-top: 3px;
            font-size: 9px;
        }}

        .footer {{
            position: absolute;
            bottom: 10px;
            left: 10px;
            right: 10px;
            border-top: 1px solid #000;
            padding-top: 5px;
            font-size: 8px;
            text-align: center;
        }}

        .clearfix {{
            clear: both;
        }}

        @media print {{
            body {{ margin: 0; padding: 0; }}
            .document {{ margin: 0; box-shadow: none; padding: 0; }}
            @page {{ margin: 15mm; }}
        }}
    </style>
</head>
<body>
    <div class="document">
        <div class="header">
            <div class="org-title">Government of Sri Lanka</div>
            <div class="org-subtitle">Ministry of Environment and Natural Resources</div>
            <div class="org-subtitle">Divisional Forest Office</div>
            <div class="org-location">Vavuniya, North Central Province</div>
            <div class="document-title">Official Staff Record</div>
        </div>

        <div class="content">
            <div class="section">
                <div class="section-title">Personal Information</div>

                <div class="field-row">
                    <div class="field-label">Appointment Number:</div>
                    <div class="field-value">{}</div>
                </div>

                <div class="field-row">
                    <div class="field-label">Full Name:</div>
                    <div class="field-value">{}</div>
                </div>

                <div class="field-row">
                    <div class="field-label">Gender:</div>
                    <div class="field-value">{}</div>
                </div>

                <div class="field-row">
                    <div class="field-label">Date of Birth:</div>
                    <div class="field-value">{}</div>
                </div>

                <div class="field-row">
                    <div class="field-label">Age:</div>
                    <div class="field-value">{} years</div>
                </div>

                <div class="field-row">
                    <div class="field-label">NIC Number:</div>
                    <div class="field-value">{}</div>
                </div>

                <div class="field-row">
                    <div class="field-label">Marital Status:</div>
                    <div class="field-value">{}</div>
                </div>

                <div class="field-row">
                    <div class="field-label">Address:</div>
                    <div class="field-value">{}</div>
                </div>

                <div class="field-row">
                    <div class="field-label">Contact Number:</div>
                    <div class="field-value">{}</div>
                </div>

                <div class="field-row">
                    <div class="field-label">Email:</div>
                    <div class="field-value">{}</div>
                </div>
            </div>

            <div class="section">
                <div class="section-title">Employment Details</div>

                <div class="field-row">
                    <div class="field-label">Designation:</div>
                    <div class="field-value">{}</div>
                </div>

                <div class="field-row">
                    <div class="field-label">Date of First Appointment:</div>
                    <div class="field-value">{}</div>
                </div>

                <div class="field-row">
                    <div class="field-label">Date of Retirement:</div>
                    <div class="field-value">{}</div>
                </div>

                <div class="field-row">
                    <div class="field-label">Increment Date:</div>
                    <div class="field-value">{}</div>
                </div>
            </div>

            <div class="section">
                <div class="section-title">Salary Information</div>

                <div class="field-row">
                    <div class="field-label">Salary Code:</div>
                    <div class="field-value">{}</div>
                </div>

                <div class="field-row">
                    <div class="field-label">Basic Salary:</div>
                    <div class="field-value">{}</div>
                </div>

                <div class="field-row">
                    <div class="field-label">Increment Amount:</div>
                    <div class="field-value">{}</div>
                </div>
            </div>

            <div class="signature-section">
                <div class="signature-box">
                    <div class="signature-line">
                        Staff Member Signature
                    </div>
                </div>
                <div class="signature-box">
                    <div class="signature-line">
                        Authorized Officer Signature<br>
                        Divisional Forest Office
                    </div>
                </div>
            </div>
        </div>

        <div class="footer">
            <div>
                Document Generated: {} | Reference: {}<br>
                Divisional Forest Office, Vavuniya | Official Use Only
            </div>
        </div>
    </div>

    <script>
        // Auto-trigger print dialog when page loads
        window.onload = function() {{
            setTimeout(function() {{
                window.print();
            }}, 500);
        }};
    </script>
</body>
</html>
    "#;

/// One row of the printed directory.
///
/// Holes: number of the row; appointment number; name; designation; age;
/// identity card number; contact number; salary code; basic salary.
pub const DIRECTORY_PRINT_ROW: &'static str = r#"
            <tr>
                <td style="text-align: center;">{}</td>
                <td>{}</td>
                <td>{}</td>
                <td style="word-wrap: break-word; max-width: 150px;">{}</td>
                <td style="text-align: center;">{}</td>
                <td>{}</td>
                <td>{}</td>
                <td style="text-align: center;">{}</td>
                <td style="text-align: right;">{}</td>
            </tr>
        "#;

/// The directory laid out for printing across one page. The window that
/// shows it opens the print dialog by itself.
///
/// Holes: number of records; date of the document; rows; date of the
/// document; number of records.
pub const DIRECTORY_PRINT: &'static str = r#"
<!DOCTYPE html>
<html>
<head>
    <meta charset="UTF-8">
    <title>Staff Directory</title>
    <style>
        @page {{
            size: A4 landscape;
            margin: 10mm;
        }}

        body {{
            font-family: 'Times New Roman', serif;
            margin: 0;
            padding: 0;
            background: white;
            color: #000;
            line-height: 1.3;
            font-size: 9px;
        }}

        .document {{
            width: 100%;
            max-width: 297mm;
            margin: 0 auto;
            background: white;
            min-height: 100vh;
            padding: 5px;
        }}

        .header {{
            text-align: center;
            border-bottom: 3px double #000;
            padding-bottom: 8px;
            margin-bottom: 12px;
        }}

        .org-title {{
            font-size: 16px;
            font-weight: bold;
            text-transform: uppercase;
            margin: 2px 0;
        }}

        .org-subtitle {{
            font-size: 12px;
            margin: 2px 0;
        }}

        .document-title {{
            font-size: 14px;
            font-weight: bold;
            text-transform: uppercase;
            margin-top: 8px;
            text-decoration: underline;
        }}

        .summary {{
            margin: 10px 0;
            padding: 5px;
            background: #f5f5f5;
            border: 1px solid #000;
            text-align: center;
            font-size: 10px;
        }}

        table {{
            width: 100%;
            border-collapse: collapse;
            margin: 10px 0;
            font-size: 8px;
        }}

        th, td {{
            border: 1px solid #000;
            padding: 4px;
            text-align: left;
            vertical-align: top;
        }}

        th {{
            background: #e0e0e0;
            font-weight: bold;
            text-align: center;
            font-size: 8px;
        }}

        .footer {{
            margin-top: 15px;
            border-top: 1px solid #000;
            padding-top: 5px;
            font-size: 7px;
            text-align: center;
        }}

        @media print {{
            body {{ margin: 0; padding: 0; }}
            .document {{ margin: 0; box-shadow: none; padding: 0; }}
            @page {{ margin: 10mm; }}
        }}
    </style>
</head>
<body>
    <div class="document">
        <div class="header">
            <div class="org-title">Government of Sri Lanka</div>
            <div class="org-subtitle">Ministry of Environment and Natural Resources</div>
            <div class="org-subtitle">Divisional Forest Office</div>
            <div class="org-subtitle">Vavuniya, North Central Province</div>
            <div class="document-title">Official Staff Directory</div>
        </div>

        <div class="summary">
            <strong>Total Staff: {}</strong> | Generated: {} | Status: Official Document
        </div>

        <table>
            <thead>
                <tr>
                    <th style="width: 4%;">#</th>
                    <th style="width: 12%;">Appointment No.</th>
                    <th style="width: 18%;">Full Name</th>
                    <th style="width: 20%;">Designation</th>
                    <th style="width: 5%;">Age</th>
                    <th style="width: 12%;">NIC Number</th>
                    <th style="width: 12%;">Contact</th>
                    <th style="width: 7%;">Salary Code</th>
                    <th style="width: 10%;">Basic Salary</th>
                </tr>
            </thead>
            <tbody>
                {}
            </tbody>
        </table>

        <div class="footer">
            <div>
                Document Generated: {} | Total Records: {}<br>
                Divisional Forest Office, Vavuniya | Confidential - Official Use Only<br>
                This document contains sensitive information and should be handled according to government data protection policies.
            </div>
        </div>
    </div>

    <script>
        // Auto-trigger print dialog when page loads
        window.onload = function() {{
            setTimeout(function() {{
                window.print();
            }}, 500);
        }};
    </script>
</body>
</html>
    "#;

/// The photograph of a member of staff.
///
/// Hole: the image in base 64.
pub const PHOTO: &'static str = r#"<img src="data:image/jpeg;base64,{}" alt="Staff Photo" class="staff-photo">"#;

/// What stands where a member of staff has no photograph.
pub const PHOTO_MISSING: &'static str = r#"<div class="staff-photo-placeholder">
            <div class="photo-text">PHOTO</div>
        </div>"#;

/// A staff record laid out for the screen.
///
/// Holes: name; photograph; then those of the printed record from the
/// appointment number on.
pub const RECORD_PREVIEW: &'static str = r#"
<!DOCTYPE html>
<html>
<head>
    <meta charset="UTF-8">
    <title>Staff Record - {}</title>
    <style>
        body {{
            font-family: 'Times New Roman', serif;
            margin: 0;
            padding: 20px;
            background: white;
            color: #000;
            line-height: 1.4;
        }}
        .document {{
            max-width: 210mm;
            margin: 0 auto;
            background: white;
            min-height: 297mm;
            position: relative;
        }}
        .header {{
            text-align: center;
            border-bottom: 3px double #000;
            padding-bottom: 15px;
            margin-bottom: 25px;
            position: relative;
        }}
        .org-title {{
            font-size: 20px;
            font-weight: bold;
            text-transform: uppercase;
            margin: 5px 0;
        }}
        .org-subtitle {{
            font-size: 16px;
            margin: 5px 0;
        }}
        .org-location {{
            font-size: 14px;
            font-style: italic;
            margin: 5px 0;
        }}
        .document-title {{
            font-size: 18px;
            font-weight: bold;
            text-transform: uppercase;
            margin-top: 15px;
            text-decoration: underline;
        }}
        .staff-photo {{
            position: absolute;
            top: 15px;
            right: 15px;
            width: 120px;
            height: 150px;
            object-fit: cover;
            border: 2px solid #000;
            box-shadow: 0 2px 4px rgba(0,0,0,0.3);
        }}

        .staff-photo-placeholder {{
            position: absolute;
            top: 15px;
            right: 15px;
            width: 120px;
            height: 150px;
            border: 2px solid #000;
            background: #f5f5f5;
            display: flex;
            align-items: center;
            justify-content: center;
        }}

        .photo-text {{
            font-size: 12px;
            font-weight: bold;
            color: #666;
        }}
        .content {{
            padding: 0 20px;
            margin-right: 140px; /* Make space for photo */
        }}
        .section {{
            margin-bottom: 25px;
        }}
        .section-title {{
            font-size: 16px;
            font-weight: bold;
            text-transform: uppercase;
            border-bottom: 2px solid #000;
            padding-bottom: 5px;
            margin-bottom: 15px;
        }}
        .field-row {{
            display: table;
            width: 100%;
            margin-bottom: 8px;
        }}
        .field-label {{
            display: table-cell;
            font-weight: bold;
            width: 180px;
            vertical-align: top;
            padding-right: 10px;
        }}
        .field-value {{
            display: table-cell;
            vertical-align: top;
            border-bottom: 1px dotted #333;
            padding-bottom: 2px;
        }}
        .signature-section {{
            margin-top: 40px;
            display: table;
            width: 100%;
            margin-right: 0; /* Reset margin for signatures */
        }}
        .signature-box {{
            display: table-cell;
            width: 50%;
            text-align: center;
            padding: 20px;
        }}
        .signature-line {{
            border-top: 1px solid #000;
            margin-top: 40px;
            padding-top: 5px;
            font-size: 12px;
        }}
        .footer {{
            position: absolute;
            bottom: 20px;
            left: 20px;
            right: 20px;
            border-top: 1px solid #000;
            padding-top: 10px;
            font-size: 10px;
            text-align: center;
        }}
        .clearfix {{
            clear: both;
        }}
        .signature-full-width {{
            margin-right: 0 !important;
        }}
        @media print {{
            body {{ margin: 0; padding: 0; }}
            .document {{ margin: 0; box-shadow: none; }}
        }}
    </style>
</head>
<body>
    <div class="document">
        <div class="header">
            <div class="org-title">Government of Sri Lanka</div>
            <div class="org-subtitle">Ministry of Environment and Natural Resources</div>
            <div class="org-subtitle">Divisional Forest Office</div>
            <div class="org-location">Vavuniya, North Central Province</div>
            <div class="document-title">Official Staff Record</div>

            <!-- Staff Photo positioned in top right -->
            {}
        </div>

        <div class="content">
            <div class="section">
                <div class="section-title">Personal Information</div>

                <div class="field-row">
                    <div class="field-label">Appointment Number:</div>
                    <div class="field-value">{}</div>
                </div>

                <div class="field-row">
                    <div class="field-label">Full Name:</div>
                    <div class="field-value">{}</div>
                </div>

                <div class="field-row">
                    <div class="field-label">Gender:</div>
                    <div class="field-value">{}</div>
                </div>

                <div class="field-row">
                    <div class="field-label">Date of Birth:</div>
                    <div class="field-value">{}</div>
                </div>

                <div class="field-row">
                    <div class="field-label">Age:</div>
                    <div class="field-value">{} years</div>
                </div>

                <div class="field-row">
                    <div class="field-label">NIC Number:</div>
                    <div class="field-value">{}</div>
                </div>

                <div class="field-row">
                    <div class="field-label">Marital Status:</div>
                    <div class="field-value">{}</div>
                </div>

                <div class="field-row">
                    <div class="field-label">Address:</div>
                    <div class="field-value">{}</div>
                </div>

                <div class="field-row">
                    <div class="field-label">Contact Number:</div>
                    <div class="field-value">{}</div>
                </div>

                <div class="field-row">
                    <div class="field-label">Email:</div>
                    <div class="field-value">{}</div>
                </div>
            </div>

            <div class="section">
                <div class="section-title">Employment Details</div>

                <div class="field-row">
                    <div class="field-label">Designation:</div>
                    <div class="field-value">{}</div>
                </div>

                <div class="field-row">
                    <div class="field-label">Date of First Appointment:</div>
                    <div class="field-value">{}</div>
                </div>

                <div class="field-row">
                    <div class="field-label">Date of Retirement:</div>
                    <div class="field-value">{}</div>
                </div>

                <div class="field-row">
                    <div class="field-label">Increment Date:</div>
                    <div class="field-value">{}</div>
                </div>
            </div>

            <div class="section">
                <div class="section-title">Salary Information</div>

                <div class="field-row">
                    <div class="field-label">Salary Code:</div>
                    <div class="field-value">{}</div>
                </div>

                <div class="field-row">
                    <div class="field-label">Basic Salary:</div>
                    <div class="field-value">{}</div>
                </div>

                <div class="field-row">
                    <div class="field-label">Increment Amount:</div>
                    <div class="field-value">{}</div>
                </div>
            </div>
        </div>

        <div class="signature-section signature-full-width">
            <div class="signature-box">
                <div class="signature-line">
                    Staff Member Signature
                </div>
            </div>
            <div class="signature-box">
                <div class="signature-line">
                    Authorized Officer Signature<br>
                    Divisional Forest Office
                </div>
            </div>
        </div>

        <div class="footer">
            <div>
                Document Generated: {} | Reference: {}<br>
                Divisional Forest Office, Vavuniya | Official Use Only
            </div>
        </div>
    </div>
</body>
</html>
    "#;

/// One row of the directory on the screen.
///
/// Holes: as in a row of the printed directory.
pub const DIRECTORY_PREVIEW_ROW: &'static str = r#"
            <tr>
                <td>{}</td>
                <td>{}</td>
                <td>{}</td>
                <td style="word-wrap: break-word;">{}</td>
                <td>{}</td>
                <td>{}</td>
                <td>{}</td>
                <td>{}</td>
                <td>{}</td>
            </tr>
        "#;

/// The directory laid out for the screen.
///
/// Holes: as in the printed directory.
pub const DIRECTORY_PREVIEW: &'static str = r#"
<!DOCTYPE html>
<html>
<head>
    <meta charset="UTF-8">
    <title>Staff Directory</title>
    <style>
        body {{
            font-family: 'Times New Roman', serif;
            margin: 0;
            padding: 20px;
            background: white;
            color: #000;
            line-height: 1.4;
        }}
        .document {{
            max-width: 297mm;
            margin: 0 auto;
            background: white;
        }}
        .header {{
            text-align: center;
            border-bottom: 3px double #000;
            padding-bottom: 15px;
            margin-bottom: 25px;
        }}
        .org-title {{
            font-size: 20px;
            font-weight: bold;
            text-transform: uppercase;
            margin: 5px 0;
        }}
        .org-subtitle {{
            font-size: 16px;
            margin: 5px 0;
        }}
        .document-title {{
            font-size: 18px;
            font-weight: bold;
            text-transform: uppercase;
            margin-top: 15px;
            text-decoration: underline;
        }}
        .summary {{
            margin: 20px 0;
            padding: 10px;
            background: #f5f5f5;
            border: 1px solid #000;
            text-align: center;
        }}
        table {{
            width: 100%;
            border-collapse: collapse;
            margin: 20px 0;
            font-size: 10px;
        }}
        th, td {{
            border: 1px solid #000;
            padding: 6px;
            text-align: left;
            vertical-align: top;
        }}
        th {{
            background: #e0e0e0;
            font-weight: bold;
            text-align: center;
        }}
        .footer {{
            margin-top: 30px;
            border-top: 1px solid #000;
            padding-top: 10px;
            font-size: 10px;
            text-align: center;
        }}
    </style>
</head>
<body>
    <div class="document">
        <div class="header">
            <div class="org-title">Government of Sri Lanka</div>
            <div class="org-subtitle">Ministry of Environment and Natural Resources</div>
            <div class="org-subtitle">Divisional Forest Office</div>
            <div class="org-subtitle">Vavuniya, North Central Province</div>
            <div class="document-title">Official Staff Directory</div>
        </div>

        <div class="summary">
            <strong>Total Staff: {}</strong> | Generated: {} | Status: Official Document
        </div>

        <table>
            <thead>
                <tr>
                    <th style="width: 5%;">#</th>
                    <th style="width: 12%;">Appointment No.</th>
                    <th style="width: 18%;">Full Name</th>
                    <th style="width: 20%;">Designation</th>
                    <th style="width: 6%;">Age</th>
                    <th style="width: 12%;">NIC Number</th>
                    <th style="width: 12%;">Contact</th>
                    <th style="width: 8%;">Salary Code</th>
                    <th style="width: 12%;">Basic Salary</th>
                </tr>
            </thead>
            <tbody>
                {}
            </tbody>
        </table>

        <div class="footer">
            <div>
                Document Generated: {} | Total Records: {}<br>
                Divisional Forest Office, Vavuniya | Confidential - Official Use Only<br>
                This document contains sensitive information and should be handled according to government data protection policies.
            </div>
        </div>
    </div>
</body>
</html>
    "#;

} // verus!
