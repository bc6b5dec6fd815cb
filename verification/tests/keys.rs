use rustls::msgs::enums::SignatureAlgorithm;
use rustls::sign::any_supported_type;

fn rsa_pkcs1() -> Vec<u8> {
    vec![
        0x30, 0x82, 0x04, 0xa2, 0x02, 0x01, 0x00, 0x02, 0x82, 0x01, 0x01, 0x00, 0xb4, 0xfd, 0x86, 0xeb, 0xce, 0xe3,
        0x8d, 0x1e, 0x5e, 0x24, 0x14, 0xe0, 0x9f, 0x8d, 0x2e, 0x1c, 0xa9, 0x11, 0x97, 0xc8, 0x33, 0x2f, 0x7f, 0x28,
        0x2c, 0x63, 0xca, 0x0b, 0xe4, 0xc0, 0x00, 0xae, 0x6d, 0xcb, 0x03, 0x50, 0x2b, 0x35, 0xfd, 0xc9, 0xcd, 0x42,
        0xea, 0x37, 0x90, 0x3c, 0x41, 0xee, 0xda, 0x65, 0x4c, 0x82, 0xb5, 0x6e, 0x9b, 0x2a, 0x38, 0x46, 0xaf, 0xf1,
        0x21, 0x22, 0x3a, 0x27, 0x16, 0xca, 0xb2, 0x60, 0xf6, 0xa8, 0x5d, 0x20, 0xa8, 0x8c, 0x03, 0x5d, 0xaf, 0xb9,
        0xec, 0x30, 0xd9, 0x0a, 0xd1, 0xb7, 0xfa, 0x9e, 0x5b, 0x83, 0xdd, 0xa2, 0x2f, 0x3b, 0x8a, 0xd2, 0x5c, 0x41,
        0xd0, 0xd9, 0x5e, 0x49, 0x15, 0x1f, 0x16, 0xe7, 0xf7, 0xdb, 0x68, 0xe0, 0x85, 0x3d, 0x48, 0xe0, 0xfa, 0x27,
        0xe3, 0x3a, 0x1c, 0xe0, 0xea, 0x65, 0x19, 0x2e, 0x49, 0x7b, 0x78, 0x9d, 0x63, 0x38, 0x95, 0x46, 0x79, 0x7d,
        0x54, 0x60, 0xb4, 0xab, 0xc6, 0x41, 0xc7, 0xa0, 0xf8, 0xda, 0x42, 0xa6, 0xd1, 0xf9, 0x56, 0xb2, 0x54, 0xcc,
        0xac, 0x91, 0x38, 0xd7, 0xca, 0xc5, 0xa9, 0x9d, 0x63, 0x74, 0x6c, 0xad, 0x68, 0xb6, 0x7b, 0xa8, 0xca, 0xbf,
        0x01, 0x16, 0xd9, 0xe2, 0x8b, 0x45, 0xa3, 0xda, 0x5e, 0x89, 0xdc, 0xb8, 0x82, 0x75, 0xa4, 0xa2, 0xe9, 0xe6,
        0x65, 0xee, 0x6f, 0xea, 0xac, 0x98, 0x53, 0x25, 0x8a, 0x6d, 0x3b, 0xbf, 0x24, 0x34, 0x23, 0x0f, 0xb1, 0xe4,
        0x7a, 0x5d, 0xad, 0xcc, 0xd4, 0x7c, 0x9d, 0xdf, 0xc5, 0x89, 0x5c, 0x7e, 0x87, 0xd5, 0xaa, 0xc0, 0x8a, 0xcc,
        0x47, 0x47, 0xf8, 0xd1, 0xb7, 0x47, 0x83, 0x12, 0x69, 0x0c, 0xf9, 0x5b, 0x96, 0xe4, 0xc6, 0x16, 0xb7, 0xe9,
        0xe5, 0x97, 0xd9, 0x20, 0x97, 0x81, 0x1f, 0x69, 0x95, 0x4b, 0xc1, 0xb5, 0xea, 0x90, 0x35, 0x85, 0x02, 0x03,
        0x01, 0x00, 0x01, 0x02, 0x82, 0x01, 0x00, 0x09, 0x35, 0x9c, 0x53, 0xab, 0xe5, 0x96, 0xc4, 0xec, 0x8f, 0xe3,
        0xf3, 0x11, 0x13, 0x4f, 0x3d, 0x1c, 0x9a, 0x3d, 0x51, 0xad, 0xcf, 0x15, 0x26, 0x8f, 0x69, 0xad, 0x7a, 0x80,
        0xf3, 0x87, 0x25, 0x59, 0x07, 0x5b, 0x3e, 0x0d, 0x50, 0xd4, 0x3e, 0xdc, 0x3f, 0xb3, 0x28, 0xcc, 0x21, 0x50,
        0xce, 0x8d, 0x54, 0xd9, 0xb9, 0x8d, 0xef, 0x58, 0x9c, 0x63, 0x9c, 0x2f, 0x30, 0x33, 0x1a, 0x29, 0x80, 0xdb,
        0x2f, 0x49, 0xb7, 0xd6, 0xdd, 0x36, 0xcd, 0xe6, 0x5d, 0xa7, 0x7f, 0x31, 0x25, 0xa1, 0xff, 0xd3, 0x4f, 0x72,
        0x5f, 0xec, 0xf3, 0xf9, 0x5e, 0xa2, 0x9c, 0xb1, 0xd0, 0x13, 0x0e, 0x84, 0xac, 0xc1, 0xaa, 0x89, 0xda, 0x68,
        0xa5, 0x7a, 0x16, 0x28, 0x1d, 0xc5, 0x3e, 0xa5, 0x70, 0xfa, 0xa0, 0x1e, 0x02, 0x81, 0x14, 0xb0, 0x2a, 0xfe,
        0xaa, 0x51, 0xc7, 0x71, 0xec, 0x43, 0x35, 0x28, 0xfa, 0xfe, 0x40, 0x39, 0x2a, 0xd2, 0x89, 0xa0, 0x85, 0x28,
        0xfe, 0x7c, 0xb2, 0x30, 0x06, 0x44, 0xbb, 0xc6, 0x96, 0xea, 0x7c, 0x64, 0x65, 0x74, 0xa5, 0x93, 0x7b, 0xe7,
        0x6e, 0x1c, 0x8a, 0x4e, 0xf2, 0xc1, 0x21, 0x9d, 0xed, 0xbe, 0x6e, 0xd1, 0x16, 0x0a, 0x8a, 0x00, 0x4e, 0x7a,
        0x9b, 0x1a, 0x2d, 0x39, 0x8d, 0x6d, 0x20, 0x16, 0xdc, 0xd9, 0x61, 0xd7, 0xa7, 0x2f, 0xa7, 0x3e, 0xa3, 0x20,
        0x4d, 0xc0, 0x2e, 0xd2, 0x5c, 0x54, 0x87, 0x22, 0xc7, 0x9b, 0x65, 0xf2, 0xbe, 0x09, 0xd1, 0x25, 0xe6, 0x30,
        0xca, 0x19, 0x88, 0xd9, 0x6a, 0xac, 0x73, 0x8e, 0x96, 0x85, 0x47, 0x77, 0xaa, 0xcc, 0xb8, 0x16, 0xac, 0xb8,
        0x33, 0x04, 0x53, 0x57, 0x02, 0x6f, 0x62, 0xcf, 0x82, 0x7d, 0x7d, 0xcf, 0xc0, 0x18, 0xda, 0x3a, 0x84, 0xf2,
        0x61, 0xa1, 0x4f, 0xcd, 0xa0, 0x9c, 0x9c, 0x81, 0xa2, 0xcf, 0xe9, 0x02, 0x81, 0x81, 0x00, 0xf5, 0x1d, 0x17,
        0x33, 0xbb, 0x7e, 0x0e, 0x95, 0xf2, 0xc7, 0x60, 0x2c, 0x9c, 0x23, 0xa2, 0xdb, 0xea, 0x95, 0xa6, 0x32, 0x8d,
        0xf4, 0x44, 0x89, 0x34, 0x2b, 0xed, 0xb5, 0xbf, 0x97, 0x00, 0x36, 0xdb, 0x5e, 0xf4, 0xe0, 0xc9, 0x95, 0xad,
        0x9d, 0x85, 0x12, 0x6e, 0x75, 0x6f, 0xf3, 0x43, 0x91, 0xaa, 0xd2, 0x57, 0x87, 0x56, 0xcf, 0x2b, 0x0e, 0x57,
        0x74, 0xfe, 0xd6, 0xdd, 0x13, 0xf9, 0x82, 0x7a, 0xd4, 0xb3, 0xe0, 0xc3, 0x8e, 0x5b, 0xda, 0x8d, 0x93, 0xb2,
        0xe8, 0x9d, 0xbf, 0x73, 0x4b, 0x1c, 0x06, 0xc5, 0x29, 0x80, 0xde, 0xfe, 0xa5, 0x01, 0x29, 0xa2, 0x80, 0x32,
        0x33, 0x35, 0x1a, 0xb7, 0x2d, 0x4b, 0x1d, 0xd5, 0xb5, 0xdd, 0x03, 0xfd, 0xc5, 0x69, 0x29, 0x52, 0xf1, 0xe5,
        0xa4, 0xfc, 0x38, 0x76, 0x60, 0xe7, 0x39, 0x15, 0x9a, 0x04, 0xb2, 0x28, 0x04, 0x6b, 0xd3, 0x3b, 0x9d, 0x02,
        0x81, 0x81, 0x00, 0xbd, 0x07, 0x5c, 0xf2, 0xda, 0x81, 0x92, 0x6e, 0x11, 0xaf, 0xd1, 0xd2, 0x4e, 0xf9, 0xb2,
        0xf6, 0x3b, 0xc2, 0xe0, 0x0d, 0x53, 0x5c, 0x4a, 0x16, 0xf0, 0x80, 0x92, 0xc4, 0xf3, 0xfd, 0xde, 0x0b, 0x56,
        0x20, 0xf1, 0xaa, 0xcb, 0x13, 0xb5, 0x10, 0x78, 0x8a, 0x50, 0x54, 0x2e, 0xe9, 0x11, 0x66, 0x4c, 0x25, 0x66,
        0x2d, 0x46, 0x86, 0x0a, 0x85, 0x8a, 0xc8, 0x82, 0x99, 0x6c, 0x28, 0x67, 0x5d, 0x1f, 0xe0, 0x68, 0xae, 0xd4,
        0xd9, 0xf4, 0x4c, 0xc0, 0x07, 0x47, 0x96, 0x6d, 0xa7, 0xdd, 0x8d, 0xc7, 0x19, 0xc2, 0x25, 0x73, 0x47, 0xdd,
        0x70, 0x46, 0x64, 0x7e, 0xc7, 0xf5, 0xb3, 0x77, 0xf0, 0xc5, 0x99, 0xd6, 0x9a, 0x10, 0x0e, 0x95, 0x4d, 0x86,
        0x5c, 0xf9, 0xcb, 0x92, 0x22, 0x7b, 0x07, 0xb3, 0x70, 0x0d, 0xd9, 0x8c, 0x31, 0xe0, 0x48, 0xe6, 0x7d, 0x72,
        0x61, 0x1e, 0xad, 0x81, 0x09, 0x02, 0x81, 0x80, 0x33, 0x3c, 0x40, 0x74, 0x54, 0xd5, 0xb5, 0xb0, 0xcc, 0x4d,
        0xb6, 0xa1, 0xbc, 0x85, 0x8a, 0x6e, 0x53, 0xab, 0xb2, 0x50, 0xd0, 0xf1, 0x65, 0x3e, 0x14, 0xc4, 0xb5, 0xec,
        0x8e, 0xbe, 0xbe, 0x91, 0xb8, 0xeb, 0x31, 0x5e, 0xa7, 0x64, 0x7d, 0x24, 0xf7, 0x02, 0xf2, 0x49, 0xe3, 0xfb,
        0xc2, 0x7c, 0xf9, 0x6a, 0xfc, 0x56, 0xd2, 0xe3, 0x7d, 0x09, 0x83, 0x68, 0x76, 0x38, 0x6d, 0x7f, 0xd6, 0x60,
        0xda, 0xd2, 0x09, 0x43, 0x8b, 0x3c, 0xff, 0xa0, 0x40, 0x85, 0xc6, 0x18, 0xef, 0x98, 0x6c, 0x3e, 0x1f, 0xfe,
        0x9e, 0x49, 0xdd, 0xa1, 0x3f, 0x33, 0x38, 0x79, 0xfe, 0x78, 0xb3, 0x85, 0x96, 0xad, 0x1d, 0xea, 0xfe, 0xcf,
        0x9e, 0xb3, 0x64, 0x1e, 0x88, 0x76, 0x32, 0x54, 0x2b, 0xfd, 0x5a, 0x56, 0x51, 0x4e, 0x70, 0x18, 0x33, 0x5c,
        0xf0, 0x52, 0x00, 0x77, 0x48, 0xfc, 0x1b, 0x99, 0xcc, 0xd5, 0x02, 0x81, 0x80, 0x65, 0x51, 0xe5, 0x08, 0x67,
        0x06, 0xbc, 0xae, 0x32, 0xdc, 0xc2, 0xe2, 0xaf, 0x62, 0x38, 0x02, 0xb3, 0xd5, 0xa8, 0xb2, 0x7b, 0xd4, 0x24,
        0x02, 0x57, 0xb7, 0x12, 0xf4, 0x6e, 0xb3, 0xcc, 0xa8, 0xd6, 0xe9, 0xa1, 0x9f, 0xa2, 0x6a, 0x55, 0xcb, 0x16,
        0x51, 0x4c, 0xed, 0x52, 0x97, 0xaa, 0xb3, 0xe2, 0x6c, 0xc9, 0x6f, 0xcb, 0x35, 0x5d, 0xbe, 0x66, 0xbd, 0x43,
        0x03, 0x69, 0x6d, 0xde, 0xb9, 0x93, 0xb4, 0x7d, 0x67, 0xf8, 0xbf, 0x3a, 0xab, 0x48, 0xe2, 0x9e, 0x04, 0x8b,
        0x92, 0x46, 0xb7, 0x0f, 0xd9, 0x46, 0xaf, 0x3c, 0x33, 0x71, 0x06, 0x15, 0x35, 0x18, 0x9f, 0xa5, 0x9b, 0x24,
        0xd6, 0xf1, 0x93, 0x9b, 0xeb, 0xc8, 0x5f, 0x88, 0xb7, 0x9d, 0x25, 0x88, 0xdf, 0x0c, 0xdd, 0x5e, 0x84, 0xaa,
        0x31, 0x8d, 0xba, 0xe5, 0xe2, 0x76, 0x0d, 0x9d, 0x3d, 0xf0, 0x69, 0x0e, 0x40, 0x81, 0xc1, 0x02, 0x81, 0x80,
        0x7c, 0xaf, 0xd9, 0x1d, 0xdc, 0xc8, 0x98, 0xfd, 0x7b, 0x4a, 0xcb, 0xa2, 0x35, 0xae, 0x7e, 0x25, 0xa8, 0x63,
        0xfd, 0x94, 0x9c, 0xde, 0xfa, 0x7c, 0x16, 0xd9, 0xe4, 0xc9, 0x8a, 0xbd, 0x49, 0x1d, 0x97, 0xa0, 0x42, 0xe3,
        0x44, 0x14, 0xba, 0xec, 0xb5, 0xea, 0xc2, 0x0a, 0x8f, 0x4a, 0xf8, 0x3e, 0x9e, 0x43, 0x01, 0xe9, 0xc5, 0x98,
        0x75, 0x6c, 0x66, 0x67, 0xd4, 0xf1, 0x0f, 0x05, 0xdb, 0xd8, 0x42, 0x45, 0x51, 0x77, 0xb5, 0x9c, 0x51, 0x63,
        0x2a, 0x05, 0x46, 0x50, 0xf2, 0xa2, 0x59, 0x0c, 0xf7, 0xd4, 0x6a, 0x87, 0x5c, 0x59, 0xcd, 0x62, 0xcd, 0x1b,
        0xd8, 0x0a, 0x2f, 0xd1, 0x2a, 0xbd, 0x4f, 0x68, 0x16, 0x9f, 0xfc, 0x1c, 0x90, 0x8a, 0x98, 0xf1, 0x36, 0x14,
        0xc0, 0xbd, 0x2f, 0xc7, 0x9d, 0x67, 0x24, 0x10, 0xed, 0x2b, 0xab, 0x28, 0x4c, 0x4e, 0xf9, 0x04, 0x92, 0x7a,
        0xf4, 0xcb,
    ]
}

fn rsa_pkcs8() -> Vec<u8> {
    vec![
        0x30, 0x82, 0x04, 0xbc, 0x02, 0x01, 0x00, 0x30, 0x0d, 0x06, 0x09, 0x2a, 0x86, 0x48, 0x86, 0xf7, 0x0d, 0x01,
        0x01, 0x01, 0x05, 0x00, 0x04, 0x82, 0x04, 0xa6, 0x30, 0x82, 0x04, 0xa2, 0x02, 0x01, 0x00, 0x02, 0x82, 0x01,
        0x01, 0x00, 0xb4, 0xfd, 0x86, 0xeb, 0xce, 0xe3, 0x8d, 0x1e, 0x5e, 0x24, 0x14, 0xe0, 0x9f, 0x8d, 0x2e, 0x1c,
        0xa9, 0x11, 0x97, 0xc8, 0x33, 0x2f, 0x7f, 0x28, 0x2c, 0x63, 0xca, 0x0b, 0xe4, 0xc0, 0x00, 0xae, 0x6d, 0xcb,
        0x03, 0x50, 0x2b, 0x35, 0xfd, 0xc9, 0xcd, 0x42, 0xea, 0x37, 0x90, 0x3c, 0x41, 0xee, 0xda, 0x65, 0x4c, 0x82,
        0xb5, 0x6e, 0x9b, 0x2a, 0x38, 0x46, 0xaf, 0xf1, 0x21, 0x22, 0x3a, 0x27, 0x16, 0xca, 0xb2, 0x60, 0xf6, 0xa8,
        0x5d, 0x20, 0xa8, 0x8c, 0x03, 0x5d, 0xaf, 0xb9, 0xec, 0x30, 0xd9, 0x0a, 0xd1, 0xb7, 0xfa, 0x9e, 0x5b, 0x83,
        0xdd, 0xa2, 0x2f, 0x3b, 0x8a, 0xd2, 0x5c, 0x41, 0xd0, 0xd9, 0x5e, 0x49, 0x15, 0x1f, 0x16, 0xe7, 0xf7, 0xdb,
        0x68, 0xe0, 0x85, 0x3d, 0x48, 0xe0, 0xfa, 0x27, 0xe3, 0x3a, 0x1c, 0xe0, 0xea, 0x65, 0x19, 0x2e, 0x49, 0x7b,
        0x78, 0x9d, 0x63, 0x38, 0x95, 0x46, 0x79, 0x7d, 0x54, 0x60, 0xb4, 0xab, 0xc6, 0x41, 0xc7, 0xa0, 0xf8, 0xda,
        0x42, 0xa6, 0xd1, 0xf9, 0x56, 0xb2, 0x54, 0xcc, 0xac, 0x91, 0x38, 0xd7, 0xca, 0xc5, 0xa9, 0x9d, 0x63, 0x74,
        0x6c, 0xad, 0x68, 0xb6, 0x7b, 0xa8, 0xca, 0xbf, 0x01, 0x16, 0xd9, 0xe2, 0x8b, 0x45, 0xa3, 0xda, 0x5e, 0x89,
        0xdc, 0xb8, 0x82, 0x75, 0xa4, 0xa2, 0xe9, 0xe6, 0x65, 0xee, 0x6f, 0xea, 0xac, 0x98, 0x53, 0x25, 0x8a, 0x6d,
        0x3b, 0xbf, 0x24, 0x34, 0x23, 0x0f, 0xb1, 0xe4, 0x7a, 0x5d, 0xad, 0xcc, 0xd4, 0x7c, 0x9d, 0xdf, 0xc5, 0x89,
        0x5c, 0x7e, 0x87, 0xd5, 0xaa, 0xc0, 0x8a, 0xcc, 0x47, 0x47, 0xf8, 0xd1, 0xb7, 0x47, 0x83, 0x12, 0x69, 0x0c,
        0xf9, 0x5b, 0x96, 0xe4, 0xc6, 0x16, 0xb7, 0xe9, 0xe5, 0x97, 0xd9, 0x20, 0x97, 0x81, 0x1f, 0x69, 0x95, 0x4b,
        0xc1, 0xb5, 0xea, 0x90, 0x35, 0x85, 0x02, 0x03, 0x01, 0x00, 0x01, 0x02, 0x82, 0x01, 0x00, 0x09, 0x35, 0x9c,
        0x53, 0xab, 0xe5, 0x96, 0xc4, 0xec, 0x8f, 0xe3, 0xf3, 0x11, 0x13, 0x4f, 0x3d, 0x1c, 0x9a, 0x3d, 0x51, 0xad,
        0xcf, 0x15, 0x26, 0x8f, 0x69, 0xad, 0x7a, 0x80, 0xf3, 0x87, 0x25, 0x59, 0x07, 0x5b, 0x3e, 0x0d, 0x50, 0xd4,
        0x3e, 0xdc, 0x3f, 0xb3, 0x28, 0xcc, 0x21, 0x50, 0xce, 0x8d, 0x54, 0xd9, 0xb9, 0x8d, 0xef, 0x58, 0x9c, 0x63,
        0x9c, 0x2f, 0x30, 0x33, 0x1a, 0x29, 0x80, 0xdb, 0x2f, 0x49, 0xb7, 0xd6, 0xdd, 0x36, 0xcd, 0xe6, 0x5d, 0xa7,
        0x7f, 0x31, 0x25, 0xa1, 0xff, 0xd3, 0x4f, 0x72, 0x5f, 0xec, 0xf3, 0xf9, 0x5e, 0xa2, 0x9c, 0xb1, 0xd0, 0x13,
        0x0e, 0x84, 0xac, 0xc1, 0xaa, 0x89, 0xda, 0x68, 0xa5, 0x7a, 0x16, 0x28, 0x1d, 0xc5, 0x3e, 0xa5, 0x70, 0xfa,
        0xa0, 0x1e, 0x02, 0x81, 0x14, 0xb0, 0x2a, 0xfe, 0xaa, 0x51, 0xc7, 0x71, 0xec, 0x43, 0x35, 0x28, 0xfa, 0xfe,
        0x40, 0x39, 0x2a, 0xd2, 0x89, 0xa0, 0x85, 0x28, 0xfe, 0x7c, 0xb2, 0x30, 0x06, 0x44, 0xbb, 0xc6, 0x96, 0xea,
        0x7c, 0x64, 0x65, 0x74, 0xa5, 0x93, 0x7b, 0xe7, 0x6e, 0x1c, 0x8a, 0x4e, 0xf2, 0xc1, 0x21, 0x9d, 0xed, 0xbe,
        0x6e, 0xd1, 0x16, 0x0a, 0x8a, 0x00, 0x4e, 0x7a, 0x9b, 0x1a, 0x2d, 0x39, 0x8d, 0x6d, 0x20, 0x16, 0xdc, 0xd9,
        0x61, 0xd7, 0xa7, 0x2f, 0xa7, 0x3e, 0xa3, 0x20, 0x4d, 0xc0, 0x2e, 0xd2, 0x5c, 0x54, 0x87, 0x22, 0xc7, 0x9b,
        0x65, 0xf2, 0xbe, 0x09, 0xd1, 0x25, 0xe6, 0x30, 0xca, 0x19, 0x88, 0xd9, 0x6a, 0xac, 0x73, 0x8e, 0x96, 0x85,
        0x47, 0x77, 0xaa, 0xcc, 0xb8, 0x16, 0xac, 0xb8, 0x33, 0x04, 0x53, 0x57, 0x02, 0x6f, 0x62, 0xcf, 0x82, 0x7d,
        0x7d, 0xcf, 0xc0, 0x18, 0xda, 0x3a, 0x84, 0xf2, 0x61, 0xa1, 0x4f, 0xcd, 0xa0, 0x9c, 0x9c, 0x81, 0xa2, 0xcf,
        0xe9, 0x02, 0x81, 0x81, 0x00, 0xf5, 0x1d, 0x17, 0x33, 0xbb, 0x7e, 0x0e, 0x95, 0xf2, 0xc7, 0x60, 0x2c, 0x9c,
        0x23, 0xa2, 0xdb, 0xea, 0x95, 0xa6, 0x32, 0x8d, 0xf4, 0x44, 0x89, 0x34, 0x2b, 0xed, 0xb5, 0xbf, 0x97, 0x00,
        0x36, 0xdb, 0x5e, 0xf4, 0xe0, 0xc9, 0x95, 0xad, 0x9d, 0x85, 0x12, 0x6e, 0x75, 0x6f, 0xf3, 0x43, 0x91, 0xaa,
        0xd2, 0x57, 0x87, 0x56, 0xcf, 0x2b, 0x0e, 0x57, 0x74, 0xfe, 0xd6, 0xdd, 0x13, 0xf9, 0x82, 0x7a, 0xd4, 0xb3,
        0xe0, 0xc3, 0x8e, 0x5b, 0xda, 0x8d, 0x93, 0xb2, 0xe8, 0x9d, 0xbf, 0x73, 0x4b, 0x1c, 0x06, 0xc5, 0x29, 0x80,
        0xde, 0xfe, 0xa5, 0x01, 0x29, 0xa2, 0x80, 0x32, 0x33, 0x35, 0x1a, 0xb7, 0x2d, 0x4b, 0x1d, 0xd5, 0xb5, 0xdd,
        0x03, 0xfd, 0xc5, 0x69, 0x29, 0x52, 0xf1, 0xe5, 0xa4, 0xfc, 0x38, 0x76, 0x60, 0xe7, 0x39, 0x15, 0x9a, 0x04,
        0xb2, 0x28, 0x04, 0x6b, 0xd3, 0x3b, 0x9d, 0x02, 0x81, 0x81, 0x00, 0xbd, 0x07, 0x5c, 0xf2, 0xda, 0x81, 0x92,
        0x6e, 0x11, 0xaf, 0xd1, 0xd2, 0x4e, 0xf9, 0xb2, 0xf6, 0x3b, 0xc2, 0xe0, 0x0d, 0x53, 0x5c, 0x4a, 0x16, 0xf0,
        0x80, 0x92, 0xc4, 0xf3, 0xfd, 0xde, 0x0b, 0x56, 0x20, 0xf1, 0xaa, 0xcb, 0x13, 0xb5, 0x10, 0x78, 0x8a, 0x50,
        0x54, 0x2e, 0xe9, 0x11, 0x66, 0x4c, 0x25, 0x66, 0x2d, 0x46, 0x86, 0x0a, 0x85, 0x8a, 0xc8, 0x82, 0x99, 0x6c,
        0x28, 0x67, 0x5d, 0x1f, 0xe0, 0x68, 0xae, 0xd4, 0xd9, 0xf4, 0x4c, 0xc0, 0x07, 0x47, 0x96, 0x6d, 0xa7, 0xdd,
        0x8d, 0xc7, 0x19, 0xc2, 0x25, 0x73, 0x47, 0xdd, 0x70, 0x46, 0x64, 0x7e, 0xc7, 0xf5, 0xb3, 0x77, 0xf0, 0xc5,
        0x99, 0xd6, 0x9a, 0x10, 0x0e, 0x95, 0x4d, 0x86, 0x5c, 0xf9, 0xcb, 0x92, 0x22, 0x7b, 0x07, 0xb3, 0x70, 0x0d,
        0xd9, 0x8c, 0x31, 0xe0, 0x48, 0xe6, 0x7d, 0x72, 0x61, 0x1e, 0xad, 0x81, 0x09, 0x02, 0x81, 0x80, 0x33, 0x3c,
        0x40, 0x74, 0x54, 0xd5, 0xb5, 0xb0, 0xcc, 0x4d, 0xb6, 0xa1, 0xbc, 0x85, 0x8a, 0x6e, 0x53, 0xab, 0xb2, 0x50,
        0xd0, 0xf1, 0x65, 0x3e, 0x14, 0xc4, 0xb5, 0xec, 0x8e, 0xbe, 0xbe, 0x91, 0xb8, 0xeb, 0x31, 0x5e, 0xa7, 0x64,
        0x7d, 0x24, 0xf7, 0x02, 0xf2, 0x49, 0xe3, 0xfb, 0xc2, 0x7c, 0xf9, 0x6a, 0xfc, 0x56, 0xd2, 0xe3, 0x7d, 0x09,
        0x83, 0x68, 0x76, 0x38, 0x6d, 0x7f, 0xd6, 0x60, 0xda, 0xd2, 0x09, 0x43, 0x8b, 0x3c, 0xff, 0xa0, 0x40, 0x85,
        0xc6, 0x18, 0xef, 0x98, 0x6c, 0x3e, 0x1f, 0xfe, 0x9e, 0x49, 0xdd, 0xa1, 0x3f, 0x33, 0x38, 0x79, 0xfe, 0x78,
        0xb3, 0x85, 0x96, 0xad, 0x1d, 0xea, 0xfe, 0xcf, 0x9e, 0xb3, 0x64, 0x1e, 0x88, 0x76, 0x32, 0x54, 0x2b, 0xfd,
        0x5a, 0x56, 0x51, 0x4e, 0x70, 0x18, 0x33, 0x5c, 0xf0, 0x52, 0x00, 0x77, 0x48, 0xfc, 0x1b, 0x99, 0xcc, 0xd5,
        0x02, 0x81, 0x80, 0x65, 0x51, 0xe5, 0x08, 0x67, 0x06, 0xbc, 0xae, 0x32, 0xdc, 0xc2, 0xe2, 0xaf, 0x62, 0x38,
        0x02, 0xb3, 0xd5, 0xa8, 0xb2, 0x7b, 0xd4, 0x24, 0x02, 0x57, 0xb7, 0x12, 0xf4, 0x6e, 0xb3, 0xcc, 0xa8, 0xd6,
        0xe9, 0xa1, 0x9f, 0xa2, 0x6a, 0x55, 0xcb, 0x16, 0x51, 0x4c, 0xed, 0x52, 0x97, 0xaa, 0xb3, 0xe2, 0x6c, 0xc9,
        0x6f, 0xcb, 0x35, 0x5d, 0xbe, 0x66, 0xbd, 0x43, 0x03, 0x69, 0x6d, 0xde, 0xb9, 0x93, 0xb4, 0x7d, 0x67, 0xf8,
        0xbf, 0x3a, 0xab, 0x48, 0xe2, 0x9e, 0x04, 0x8b, 0x92, 0x46, 0xb7, 0x0f, 0xd9, 0x46, 0xaf, 0x3c, 0x33, 0x71,
        0x06, 0x15, 0x35, 0x18, 0x9f, 0xa5, 0x9b, 0x24, 0xd6, 0xf1, 0x93, 0x9b, 0xeb, 0xc8, 0x5f, 0x88, 0xb7, 0x9d,
        0x25, 0x88, 0xdf, 0x0c, 0xdd, 0x5e, 0x84, 0xaa, 0x31, 0x8d, 0xba, 0xe5, 0xe2, 0x76, 0x0d, 0x9d, 0x3d, 0xf0,
        0x69, 0x0e, 0x40, 0x81, 0xc1, 0x02, 0x81, 0x80, 0x7c, 0xaf, 0xd9, 0x1d, 0xdc, 0xc8, 0x98, 0xfd, 0x7b, 0x4a,
        0xcb, 0xa2, 0x35, 0xae, 0x7e, 0x25, 0xa8, 0x63, 0xfd, 0x94, 0x9c, 0xde, 0xfa, 0x7c, 0x16, 0xd9, 0xe4, 0xc9,
        0x8a, 0xbd, 0x49, 0x1d, 0x97, 0xa0, 0x42, 0xe3, 0x44, 0x14, 0xba, 0xec, 0xb5, 0xea, 0xc2, 0x0a, 0x8f, 0x4a,
        0xf8, 0x3e, 0x9e, 0x43, 0x01, 0xe9, 0xc5, 0x98, 0x75, 0x6c, 0x66, 0x67, 0xd4, 0xf1, 0x0f, 0x05, 0xdb, 0xd8,
        0x42, 0x45, 0x51, 0x77, 0xb5, 0x9c, 0x51, 0x63, 0x2a, 0x05, 0x46, 0x50, 0xf2, 0xa2, 0x59, 0x0c, 0xf7, 0xd4,
        0x6a, 0x87, 0x5c, 0x59, 0xcd, 0x62, 0xcd, 0x1b, 0xd8, 0x0a, 0x2f, 0xd1, 0x2a, 0xbd, 0x4f, 0x68, 0x16, 0x9f,
        0xfc, 0x1c, 0x90, 0x8a, 0x98, 0xf1, 0x36, 0x14, 0xc0, 0xbd, 0x2f, 0xc7, 0x9d, 0x67, 0x24, 0x10, 0xed, 0x2b,
        0xab, 0x28, 0x4c, 0x4e, 0xf9, 0x04, 0x92, 0x7a, 0xf4, 0xcb,
    ]
}

fn p256_pkcs8() -> Vec<u8> {
    vec![
        0x30, 0x81, 0x87, 0x02, 0x01, 0x00, 0x30, 0x13, 0x06, 0x07, 0x2a, 0x86, 0x48, 0xce, 0x3d, 0x02, 0x01, 0x06,
        0x08, 0x2a, 0x86, 0x48, 0xce, 0x3d, 0x03, 0x01, 0x07, 0x04, 0x6d, 0x30, 0x6b, 0x02, 0x01, 0x01, 0x04, 0x20,
        0xb6, 0x02, 0xd9, 0x13, 0x4d, 0x74, 0x97, 0xf5, 0x17, 0x68, 0xa3, 0x87, 0xaf, 0x1c, 0x25, 0xd4, 0x3a, 0x76,
        0x9a, 0x12, 0xaa, 0xaa, 0xc1, 0xe0, 0x3a, 0x1f, 0xdd, 0x99, 0xb1, 0x45, 0x71, 0x06, 0xa1, 0x44, 0x03, 0x42,
        0x00, 0x04, 0x44, 0xcf, 0x69, 0xf7, 0xe4, 0xec, 0xd0, 0xf6, 0xad, 0xd7, 0x6d, 0xb0, 0x31, 0x0c, 0x3b, 0x6d,
        0x09, 0xeb, 0x74, 0x6c, 0x7f, 0x7e, 0xe7, 0x98, 0x3a, 0x58, 0x3f, 0x1a, 0x78, 0x7b, 0xba, 0x33, 0xcd, 0x01,
        0xaa, 0xb6, 0x7f, 0x1e, 0xe8, 0x6e, 0x84, 0x13, 0xfb, 0x73, 0x33, 0x76, 0x69, 0x03, 0x09, 0x7c, 0xd8, 0x24,
        0xec, 0xb4, 0x55, 0xa5, 0xcf, 0xcb, 0x61, 0x3b, 0xed, 0x91, 0xba, 0x81,
    ]
}

fn p384_pkcs8() -> Vec<u8> {
    vec![
        0x30, 0x81, 0xb6, 0x02, 0x01, 0x00, 0x30, 0x10, 0x06, 0x07, 0x2a, 0x86, 0x48, 0xce, 0x3d, 0x02, 0x01, 0x06,
        0x05, 0x2b, 0x81, 0x04, 0x00, 0x22, 0x04, 0x81, 0x9e, 0x30, 0x81, 0x9b, 0x02, 0x01, 0x01, 0x04, 0x30, 0x3d,
        0xe5, 0x70, 0x0f, 0x02, 0xc5, 0xe3, 0xad, 0x81, 0x68, 0x0e, 0xba, 0x7d, 0x85, 0x9b, 0xb4, 0xfe, 0xaa, 0x64,
        0xba, 0x06, 0xef, 0xfd, 0x5c, 0xf9, 0xba, 0xcb, 0xdc, 0x84, 0xe1, 0xf4, 0xa4, 0x1d, 0x48, 0x74, 0xb6, 0x55,
        0x54, 0x25, 0xe3, 0x56, 0xf4, 0x1b, 0x17, 0xd9, 0x07, 0xd5, 0x61, 0xa1, 0x64, 0x03, 0x62, 0x00, 0x04, 0x2a,
        0x6b, 0xf6, 0x72, 0xf8, 0xb6, 0x84, 0xa9, 0x4a, 0xdc, 0x3e, 0x82, 0xf9, 0xcb, 0xc3, 0x91, 0x91, 0xb5, 0xb0,
        0x35, 0x4d, 0x2c, 0xb5, 0x51, 0xec, 0x59, 0xb4, 0xe9, 0xac, 0x2f, 0x16, 0x8f, 0xe5, 0x28, 0xde, 0x74, 0x11,
        0x40, 0x30, 0xef, 0x2a, 0x42, 0xbc, 0x8c, 0xbd, 0x0d, 0xb1, 0x95, 0x1b, 0x6b, 0x56, 0x89, 0x0a, 0xd3, 0xae,
        0x83, 0x4d, 0x5b, 0xad, 0xb0, 0xe5, 0x4d, 0xb9, 0x4d, 0xb8, 0xb8, 0x59, 0x3e, 0x42, 0xe3, 0xa4, 0x84, 0xe1,
        0xc6, 0xc2, 0xab, 0x17, 0x39, 0x5c, 0x7e, 0xcf, 0xbd, 0x56, 0xce, 0x33, 0x7b, 0x8f, 0x4c, 0xf5, 0x09, 0x87,
        0xe1, 0xb2, 0x48, 0x80, 0xca,
    ]
}

#[test]
fn an_rsa_key_is_recognised_in_both_encodings() {
    assert_eq!(any_supported_type(&rsa_pkcs1()), Some(SignatureAlgorithm::RSA));
    assert_eq!(any_supported_type(&rsa_pkcs8()), Some(SignatureAlgorithm::RSA));
}

#[test]
fn an_ecdsa_key_is_recognised_on_both_curves() {
    assert_eq!(any_supported_type(&p256_pkcs8()), Some(SignatureAlgorithm::ECDSA));
    assert_eq!(any_supported_type(&p384_pkcs8()), Some(SignatureAlgorithm::ECDSA));
}

#[test]
fn a_damaged_key_is_not_recognised() {
    let mut key = p256_pkcs8();
    key.truncate(key.len() - 1);
    assert_eq!(any_supported_type(&key), None);
    let mut key = rsa_pkcs8();
    key[0] = 0x31;
    assert_eq!(any_supported_type(&key), None);
}
